//! The order in which interrupt delivery is brought up.
//!
//! The order is load-bearing. Interrupts stay masked until the vector table is
//! loaded, one controller is active and, on the legacy path, the periodic
//! timer is programmed. The state of the bring-up is an explicit value that
//! the boot code owns; `BootState::next_step` says what to do next, and
//! `BootState::apply` records that it was done.

use crate::interrupts::Backend;
use vstd::prelude::*;

verus! {

/// One step of the bring-up.
#[derive(Clone, Copy, Debug, PartialEq, Eq, Structural)]
pub enum InitStep {
    /// Install the vector table as the processor's active table.
    LoadVectorTable,
    /// Initialize the legacy controllers with their vector offsets.
    InitializeLegacy,
    /// Mask every line of the legacy controllers.
    DisableLegacy,
    /// Enable the local controller with its vectors.
    EnableLocal,
    /// Program the periodic timer.
    ProgramTimer,
    /// Unmask interrupts at the processor.
    EnableInterrupts,
}

/// State of the legacy controllers.
#[derive(Clone, Copy, Debug, PartialEq, Eq, Structural)]
pub enum LegacyState {
    /// Not yet initialized.
    Reset,
    /// Initialized and delivering.
    Active,
    /// Initialized and then masked.
    Disabled,
}

/// How far the bring-up has come.
#[derive(Clone, Copy, Debug, PartialEq, Eq, Structural)]
pub struct BootState {
    pub table_loaded: bool,
    pub legacy: LegacyState,
    pub local_enabled: bool,
    pub timer_programmed: bool,
    pub interrupts_enabled: bool,
}

/// The steps of the bring-up under `backend`, in order.
pub open spec fn init_steps(backend: Backend) -> Seq<InitStep> {
    match backend {
        Backend::Legacy => seq![
            InitStep::LoadVectorTable,
            InitStep::InitializeLegacy,
            InitStep::ProgramTimer,
            InitStep::EnableInterrupts,
        ],
        Backend::LocalController => seq![
            InitStep::LoadVectorTable,
            InitStep::InitializeLegacy,
            InitStep::DisableLegacy,
            InitStep::EnableLocal,
            InitStep::EnableInterrupts,
        ],
    }
}

impl BootState {
    /// The state before the bring-up.
    pub open spec fn spec_reset() -> BootState {
        BootState {
            table_loaded: false,
            legacy: LegacyState::Reset,
            local_enabled: false,
            timer_programmed: false,
            interrupts_enabled: false,
        }
    }

    /// The state after `step` was done in state `self`.
    pub open spec fn spec_apply(self, step: InitStep) -> BootState {
        match step {
            InitStep::LoadVectorTable => BootState { table_loaded: true, ..self },
            InitStep::InitializeLegacy => BootState { legacy: LegacyState::Active, ..self },
            InitStep::DisableLegacy => BootState { legacy: LegacyState::Disabled, ..self },
            InitStep::EnableLocal => BootState { local_enabled: true, ..self },
            InitStep::ProgramTimer => BootState { timer_programmed: true, ..self },
            InitStep::EnableInterrupts => BootState { interrupts_enabled: true, ..self },
        }
    }

    /// The step to do in state `self`, or `None` when the bring-up is done.
    pub open spec fn spec_next_step(self, backend: Backend) -> Option<InitStep> {
        if !self.table_loaded {
            Some(InitStep::LoadVectorTable)
        } else if self.legacy == LegacyState::Reset {
            Some(InitStep::InitializeLegacy)
        } else if backend == Backend::Legacy && !self.timer_programmed {
            Some(InitStep::ProgramTimer)
        } else if backend == Backend::LocalController && self.legacy == LegacyState::Active {
            Some(InitStep::DisableLegacy)
        } else if backend == Backend::LocalController && !self.local_enabled {
            Some(InitStep::EnableLocal)
        } else if !self.interrupts_enabled {
            Some(InitStep::EnableInterrupts)
        } else {
            None
        }
    }

    /// Whether the controller of `backend` is the one controller that
    /// delivers.
    pub open spec fn spec_only_active(self, backend: Backend) -> bool {
        match backend {
            Backend::Legacy => self.legacy == LegacyState::Active && !self.local_enabled,
            Backend::LocalController => self.legacy != LegacyState::Active && self.local_enabled,
        }
    }

    /// Whether interrupts may be unmasked under `backend`: the vector table is
    /// loaded, the controller of `backend` is the only one that delivers, and
    /// on the legacy path the periodic timer is programmed.
    pub open spec fn spec_ready(self, backend: Backend) -> bool {
        &&& self.table_loaded
        &&& self.spec_only_active(backend)
        &&& backend == Backend::Legacy ==> self.timer_programmed
    }

    /// The state after the first `count` steps of the bring-up under
    /// `backend`.
    pub open spec fn after(backend: Backend, count: nat) -> BootState
        decreases count,
    {
        if count == 0 {
            Self::spec_reset()
        } else {
            Self::after(backend, (count - 1) as nat).spec_apply(init_steps(backend)[count - 1])
        }
    }

    /// The state before the bring-up: nothing loaded, no controller
    /// initialized, interrupts masked.
    #[verifier::when_used_as_spec(spec_reset)]
    pub fn reset() -> (state: BootState)
        ensures
            state == Self::spec_reset(),
    {
        BootState {
            table_loaded: false,
            legacy: LegacyState::Reset,
            local_enabled: false,
            timer_programmed: false,
            interrupts_enabled: false,
        }
    }

    /// The state after `step` was done in state `self`.
    #[verifier::when_used_as_spec(spec_apply)]
    pub fn apply(self, step: InitStep) -> (state: BootState)
        ensures
            state == self.spec_apply(step),
    {
        let mut state = self;
        match step {
            InitStep::LoadVectorTable => {
                state.table_loaded = true;
            },
            InitStep::InitializeLegacy => {
                state.legacy = LegacyState::Active;
            },
            InitStep::DisableLegacy => {
                state.legacy = LegacyState::Disabled;
            },
            InitStep::EnableLocal => {
                state.local_enabled = true;
            },
            InitStep::ProgramTimer => {
                state.timer_programmed = true;
            },
            InitStep::EnableInterrupts => {
                state.interrupts_enabled = true;
            },
        }
        state
    }

    /// The step to do in state `self`, or `None` when the bring-up is done.
    ///
    /// First the vector table is loaded, then the legacy controllers are
    /// initialized. On the legacy path the timer is programmed next. With the
    /// local controller the legacy controllers are disabled and the local
    /// controller is enabled. Unmasking interrupts is the last step on either
    /// path.
    #[verifier::when_used_as_spec(spec_next_step)]
    pub fn next_step(self, backend: Backend) -> (step: Option<InitStep>)
        ensures
            step == self.spec_next_step(backend),
    {
        if !self.table_loaded {
            return Some(InitStep::LoadVectorTable);
        }
        match self.legacy {
            LegacyState::Reset => {
                return Some(InitStep::InitializeLegacy);
            },
            _ => {},
        }
        match backend {
            Backend::Legacy => {
                if !self.timer_programmed {
                    return Some(InitStep::ProgramTimer);
                }
            },
            Backend::LocalController => {
                match self.legacy {
                    LegacyState::Active => {
                        return Some(InitStep::DisableLegacy);
                    },
                    _ => {},
                }
                if !self.local_enabled {
                    return Some(InitStep::EnableLocal);
                }
            },
        }
        if !self.interrupts_enabled {
            Some(InitStep::EnableInterrupts)
        } else {
            None
        }
    }

    /// Whether the controller of `backend` is the one controller that
    /// delivers.
    #[verifier::when_used_as_spec(spec_only_active)]
    pub fn only_active(self, backend: Backend) -> (only: bool)
        ensures
            only == self.spec_only_active(backend),
    {
        let legacy_active: bool = match self.legacy {
            LegacyState::Active => true,
            _ => false,
        };
        match backend {
            Backend::Legacy => legacy_active && !self.local_enabled,
            Backend::LocalController => !legacy_active && self.local_enabled,
        }
    }

    /// Whether interrupts may be unmasked under `backend`.
    #[verifier::when_used_as_spec(spec_ready)]
    pub fn ready(self, backend: Backend) -> (ready: bool)
        ensures
            ready == self.spec_ready(backend),
    {
        let timer_ok: bool = match backend {
            Backend::Legacy => self.timer_programmed,
            Backend::LocalController => true,
        };
        self.table_loaded && self.only_active(backend) && timer_ok
    }
}

/// The steps that bring up interrupt delivery under `backend`, in order.
pub fn init(backend: Backend) -> (steps: Vec<InitStep>)
    ensures
        steps@ == init_steps(backend),
{
    let mut steps: Vec<InitStep> = Vec::new();
    let mut state: BootState = BootState::reset();
    let mut done: usize = 0;
    proof {
        lemma_next_step_follows_init(backend);
    }
    loop
        invariant
            done <= init_steps(backend).len(),
            steps@ == init_steps(backend).take(done as int),
            state == BootState::after(backend, done as nat),
            forall|count: nat|
                count < init_steps(backend).len() ==> (#[trigger] BootState::after(
                    backend,
                    count,
                )).spec_next_step(backend) == Some(init_steps(backend)[count as int]),
            BootState::after(backend, init_steps(backend).len()).spec_next_step(backend)
                == None::<InitStep>,
        ensures
            steps@ == init_steps(backend),
        decreases init_steps(backend).len() - done,
    {
        match state.next_step(backend) {
            Some(step) => {
                assert(init_steps(backend).take(done + 1) =~= init_steps(backend).take(
                    done as int,
                ).push(step));
                steps.push(step);
                state = state.apply(step);
                done = done + 1;
            },
            None => {
                break ;
            },
        }
    }
    steps
}

/// Following `next_step` from the reset state gives the steps of
/// `init_steps` one after the other and then ends.
pub proof fn lemma_next_step_follows_init(backend: Backend)
    ensures
        forall|count: nat|
            count < init_steps(backend).len() ==> (#[trigger] BootState::after(
                backend,
                count,
            )).spec_next_step(backend) == Some(init_steps(backend)[count as int]),
        BootState::after(backend, init_steps(backend).len()).spec_next_step(backend)
            == None::<InitStep>,
{
    reveal_with_fuel(BootState::after, 6);
    assert forall|count: nat| count < init_steps(backend).len() implies (
    #[trigger] BootState::after(backend, count)).spec_next_step(backend) == Some(
        init_steps(backend)[count as int],
    ) by {
        assert(count == 0 || count == 1 || count == 2 || count == 3 || count == 4);
    }
}

/// The two controllers never deliver both at once during the bring-up, and
/// in every state with interrupts unmasked the controller of `backend` is
/// the only one that delivers. With the local controller chosen the legacy
/// controllers are disabled in every such state; with the legacy controllers
/// chosen the local controller is never enabled.
pub proof fn lemma_one_backend_active(backend: Backend, count: nat)
    requires
        count <= init_steps(backend).len(),
    ensures
        !(BootState::after(backend, count).legacy == LegacyState::Active && BootState::after(
            backend,
            count,
        ).local_enabled),
        BootState::after(backend, count).interrupts_enabled ==> BootState::after(
            backend,
            count,
        ).spec_only_active(backend),
        backend == Backend::LocalController && BootState::after(backend, count).interrupts_enabled
            ==> BootState::after(backend, count).legacy == LegacyState::Disabled,
        backend == Backend::Legacy ==> !BootState::after(backend, count).local_enabled,
{
    reveal_with_fuel(BootState::after, 6);
    assert(count == 0 || count == 1 || count == 2 || count == 3 || count == 4 || count == 5);
}

/// Interrupts are unmasked last: in every state of the bring-up with
/// interrupts unmasked the vector table is loaded, the controller is
/// initialized and, on the legacy path, the timer is programmed. The
/// bring-up ends in such a state.
pub proof fn lemma_unmask_is_last(backend: Backend, count: nat)
    requires
        count <= init_steps(backend).len(),
    ensures
        BootState::after(backend, count).interrupts_enabled ==> BootState::after(
            backend,
            count,
        ).spec_ready(backend),
        BootState::after(backend, count).interrupts_enabled <==> count == init_steps(
            backend,
        ).len(),
        BootState::after(backend, init_steps(backend).len()).spec_ready(backend),
        BootState::after(backend, init_steps(backend).len()).interrupts_enabled,
{
    reveal_with_fuel(BootState::after, 6);
    assert(count == 0 || count == 1 || count == 2 || count == 3 || count == 4 || count == 5);
}

} // verus!
