//! Interrupt vector numbering, the vector table built on it, and what each
//! handler does.
//!
//! The vector table and the interrupt controller take their numbers from the
//! same place, `InterruptIndex::vector`, so that a handler is bound to the
//! vector on which its interrupt arrives.

pub use crate::boot::init;
use vstd::prelude::*;

verus! {

/// First vector of the primary legacy controller.
pub const PIC_1_OFFSET: u8 = 32;

/// First vector of the secondary legacy controller.
pub const PIC_2_OFFSET: u8 = PIC_1_OFFSET + 8;

/// Number of interrupt lines served by one legacy controller.
pub const PIC_LINES: u8 = 8;

/// The interrupt controller that delivers device interrupts.
///
/// Exactly one backend is chosen for a kernel image, and every function that
/// depends on the choice takes it as an argument.
#[derive(Clone, Copy, Debug, PartialEq, Eq, Structural)]
pub enum Backend {
    /// The two cascaded 8-bit controllers.
    Legacy,
    /// The per-core local (optionally extended) controller.
    LocalController,
}

impl Backend {
    /// First device vector under this backend.
    ///
    /// The legacy controllers occupy `PIC_1_OFFSET .. PIC_2_OFFSET + 8`. Under
    /// `Legacy` the device vectors start with that window; under
    /// `LocalController` they start right behind it.
    pub open spec fn spec_vector_offset(self) -> u8 {
        match self {
            Backend::Legacy => PIC_1_OFFSET,
            Backend::LocalController => (PIC_2_OFFSET + PIC_LINES) as u8,
        }
    }

    /// First device vector under this backend.
    #[verifier::when_used_as_spec(spec_vector_offset)]
    pub fn vector_offset(self) -> (offset: u8)
        ensures
            offset == self.spec_vector_offset(),
            self == Backend::Legacy ==> offset == 32,
            self == Backend::LocalController ==> offset == 48,
    {
        match self {
            Backend::Legacy => PIC_1_OFFSET,
            Backend::LocalController => PIC_2_OFFSET + PIC_LINES,
        }
    }
}

/// A device interrupt, numbered from the backend's vector offset.
#[derive(Clone, Copy, Debug, PartialEq, Eq, Structural)]
pub enum InterruptIndex {
    Timer,
    Spurious,
    ApicError,
}

impl InterruptIndex {
    /// Position of the interrupt behind the vector offset.
    pub open spec fn ordinal(self) -> int {
        match self {
            InterruptIndex::Timer => 0,
            InterruptIndex::Spurious => 1,
            InterruptIndex::ApicError => 2,
        }
    }

    /// The interrupt's vector number under `backend`.
    pub open spec fn vector(self, backend: Backend) -> int {
        backend.spec_vector_offset() + self.ordinal()
    }

    /// Whether the interrupt has a handler under `backend`: the timer and the
    /// spurious interrupt always, the controller error only with the local
    /// controller.
    pub open spec fn spec_is_bound(self, backend: Backend) -> bool {
        self == InterruptIndex::ApicError ==> backend == Backend::LocalController
    }

    /// Whether the interrupt has a handler under `backend`.
    #[verifier::when_used_as_spec(spec_is_bound)]
    pub fn is_bound(self, backend: Backend) -> (bound: bool)
        ensures
            bound == self.spec_is_bound(backend),
    {
        match self {
            InterruptIndex::ApicError => match backend {
                Backend::Legacy => false,
                Backend::LocalController => true,
            },
            _ => true,
        }
    }

    /// The vector number as a byte.
    pub fn as_u8(self, backend: Backend) -> (vector: u8)
        ensures
            vector == self.vector(backend),
    {
        let offset: u8 = backend.vector_offset();
        match self {
            InterruptIndex::Timer => offset,
            InterruptIndex::Spurious => offset + 1,
            InterruptIndex::ApicError => offset + 2,
        }
    }

    /// The vector number as a table index.
    pub fn as_usize(self, backend: Backend) -> (vector: usize)
        ensures
            vector == self.vector(backend),
    {
        self.as_u8(backend) as usize
    }
}

/// Number of vectors of the processor.
pub const VECTOR_COUNT: usize = 256;

/// Vector of the breakpoint trap.
pub const BREAKPOINT_VECTOR: u8 = 3;

/// Vector of the double fault.
pub const DOUBLE_FAULT_VECTOR: u8 = 8;

/// Number of entries of the interrupt stack table.
pub const STACK_TABLE_LEN: u16 = 7;

/// The entry points of the kernel's trap and interrupt handlers.
#[derive(Clone, Copy, Debug, PartialEq, Eq, Structural)]
pub enum Handler {
    Breakpoint,
    DoubleFault,
    Timer,
    Spurious,
    ControllerError,
}

/// Privilege level that code needs to raise a vector by an instruction.
#[derive(Clone, Copy, Debug, PartialEq, Eq, Structural)]
pub enum Privilege {
    Supervisor,
    User,
}

/// A used slot of the vector table.
#[derive(Clone, Copy, Debug, PartialEq, Eq, Structural)]
pub struct Gate {
    /// The entry point that runs.
    pub handler: Handler,
    /// Privilege required to raise the vector by an instruction.
    pub privilege: Privilege,
    /// Index into the interrupt stack table of the stack that the processor
    /// switches to before the handler runs; `None` keeps the current stack.
    pub stack_index: Option<u16>,
}

impl InterruptIndex {
    /// The handler of the device interrupt.
    pub open spec fn spec_handler(self) -> Handler {
        match self {
            InterruptIndex::Timer => Handler::Timer,
            InterruptIndex::Spurious => Handler::Spurious,
            InterruptIndex::ApicError => Handler::ControllerError,
        }
    }

    /// The handler of the device interrupt.
    #[verifier::when_used_as_spec(spec_handler)]
    pub fn handler(self) -> (handler: Handler)
        ensures
            handler == self.spec_handler(),
    {
        match self {
            InterruptIndex::Timer => Handler::Timer,
            InterruptIndex::Spurious => Handler::Spurious,
            InterruptIndex::ApicError => Handler::ControllerError,
        }
    }
}

/// A gate that keeps the current stack.
pub open spec fn plain_gate(handler: Handler) -> Gate {
    Gate { handler, privilege: Privilege::Supervisor, stack_index: None }
}

/// The slot of vector `vector` in the table for `backend`, with the double
/// fault on the stack `double_fault_stack` of the interrupt stack table.
pub open spec fn gate_at(backend: Backend, double_fault_stack: u16, vector: int) -> Option<Gate> {
    if vector == BREAKPOINT_VECTOR {
        Some(plain_gate(Handler::Breakpoint))
    } else if vector == DOUBLE_FAULT_VECTOR {
        Some(
            Gate {
                handler: Handler::DoubleFault,
                privilege: Privilege::Supervisor,
                stack_index: Some(double_fault_stack),
            },
        )
    } else if vector == InterruptIndex::Timer.vector(backend) {
        Some(plain_gate(Handler::Timer))
    } else if vector == InterruptIndex::Spurious.vector(backend) {
        Some(plain_gate(Handler::Spurious))
    } else if vector == InterruptIndex::ApicError.vector(backend) && backend
        == Backend::LocalController {
        Some(plain_gate(Handler::ControllerError))
    } else {
        None
    }
}

/// Whether the slot of `vector` in `table` is used and runs `handler`.
pub open spec fn slot_runs(table: Seq<Option<Gate>>, vector: int, handler: Handler) -> bool {
    &&& 0 <= vector < table.len()
    &&& table[vector] matches Some(gate)
    &&& gate.handler == handler
}

/// The slots of the table for `backend`, by vector.
pub open spec fn vector_table(backend: Backend, double_fault_stack: u16) -> Seq<Option<Gate>> {
    Seq::new(VECTOR_COUNT as nat, |vector: int| gate_at(backend, double_fault_stack, vector))
}

/// The table that maps each vector to its handler. It is built once and not
/// changed afterwards.
#[derive(Debug)]
pub struct VectorTable {
    slots: Vec<Option<Gate>>,
}

impl View for VectorTable {
    type V = Seq<Option<Gate>>;

    closed spec fn view(&self) -> Seq<Option<Gate>> {
        self.slots@
    }
}

impl VectorTable {
    /// A table has one slot for each vector.
    #[verifier::type_invariant]
    spec fn has_all_vectors(&self) -> bool {
        self.slots@.len() == VECTOR_COUNT
    }

    /// Builds the table for `backend`.
    ///
    /// The breakpoint trap and the double fault get their handlers, the double
    /// fault on the reserved stack `double_fault_stack`. The timer and the
    /// spurious interrupt are bound at their vectors under `backend`, the
    /// controller error only with the local controller. Every other slot
    /// stays unused.
    pub fn build(backend: Backend, double_fault_stack: u16) -> (table: VectorTable)
        requires
            double_fault_stack < STACK_TABLE_LEN,
        ensures
            table@ == vector_table(backend, double_fault_stack),
    {
        let mut slots: Vec<Option<Gate>> = Vec::new();
        let mut vector: usize = 0;
        while vector < VECTOR_COUNT
            invariant
                vector <= VECTOR_COUNT,
                slots@.len() == vector,
                forall|i: int| 0 <= i < vector ==> slots@[i] == None::<Gate>,
            decreases VECTOR_COUNT - vector,
        {
            slots.push(None);
            vector = vector + 1;
        }
        slots.set(
            BREAKPOINT_VECTOR as usize,
            Some(
                Gate {
                    handler: Handler::Breakpoint,
                    privilege: Privilege::Supervisor,
                    stack_index: None,
                },
            ),
        );
        slots.set(
            DOUBLE_FAULT_VECTOR as usize,
            Some(
                Gate {
                    handler: Handler::DoubleFault,
                    privilege: Privilege::Supervisor,
                    stack_index: Some(double_fault_stack),
                },
            ),
        );
        slots.set(
            InterruptIndex::Timer.as_usize(backend),
            Some(
                Gate {
                    handler: InterruptIndex::Timer.handler(),
                    privilege: Privilege::Supervisor,
                    stack_index: None,
                },
            ),
        );
        slots.set(
            InterruptIndex::Spurious.as_usize(backend),
            Some(
                Gate {
                    handler: InterruptIndex::Spurious.handler(),
                    privilege: Privilege::Supervisor,
                    stack_index: None,
                },
            ),
        );
        if InterruptIndex::ApicError.is_bound(backend) {
            slots.set(
                InterruptIndex::ApicError.as_usize(backend),
                Some(
                    Gate {
                        handler: InterruptIndex::ApicError.handler(),
                        privilege: Privilege::Supervisor,
                        stack_index: None,
                    },
                ),
            );
        }
        VectorTable { slots }
    }

    /// The slot of `vector`.
    pub fn gate(&self, vector: u8) -> (gate: Option<Gate>)
        ensures
            self@.len() == VECTOR_COUNT,
            gate == self@[vector as int],
    {
        proof {
            use_type_invariant(self);
        }
        self.slots[vector as usize]
    }

    /// The lowest vector at which `handler` is bound, if it is bound at all.
    pub fn vector_of(&self, handler: Handler) -> (vector: Option<u8>)
        ensures
            self@.len() == VECTOR_COUNT,
            match vector {
                Some(found) => slot_runs(self@, found as int, handler) && forall|i: int|
                    0 <= i < found ==> !slot_runs(self@, i, handler),
                None => forall|i: int| !slot_runs(self@, i, handler),
            },
    {
        proof {
            use_type_invariant(self);
        }
        let mut vector: usize = 0;
        while vector < VECTOR_COUNT
            invariant
                vector <= VECTOR_COUNT,
                self@.len() == VECTOR_COUNT,
                forall|i: int| 0 <= i < vector ==> !slot_runs(self@, i, handler),
            decreases VECTOR_COUNT - vector,
        {
            match self.slots[vector] {
                Some(gate) => {
                    if gate.handler == handler {
                        return Some(vector as u8);
                    }
                },
                None => {},
            }
            vector = vector + 1;
        }
        None
    }
}

/// Every handler that is bound has exactly one slot: the breakpoint trap and
/// the double fault at their fixed vectors, each bound device interrupt at
/// its vector under `backend`. The controller error has no slot under the
/// legacy backend.
pub proof fn lemma_one_slot_per_handler(backend: Backend, double_fault_stack: u16)
    ensures
        vector_table(backend, double_fault_stack).len() == VECTOR_COUNT,
        forall|i: int, j: int, handler: Handler|
            #![trigger
                slot_runs(vector_table(backend, double_fault_stack), i, handler),
                slot_runs(vector_table(backend, double_fault_stack), j, handler)
            ]
            slot_runs(vector_table(backend, double_fault_stack), i, handler) && slot_runs(
                vector_table(backend, double_fault_stack),
                j,
                handler,
            ) ==> i == j,
        slot_runs(
            vector_table(backend, double_fault_stack),
            BREAKPOINT_VECTOR as int,
            Handler::Breakpoint,
        ),
        slot_runs(
            vector_table(backend, double_fault_stack),
            DOUBLE_FAULT_VECTOR as int,
            Handler::DoubleFault,
        ),
        forall|index: InterruptIndex|
            index.spec_is_bound(backend) ==> #[trigger] slot_runs(
                vector_table(backend, double_fault_stack),
                index.vector(backend),
                index.spec_handler(),
            ),
        backend == Backend::Legacy ==> forall|i: int|
            !slot_runs(vector_table(backend, double_fault_stack), i, Handler::ControllerError),
{
}

/// Only the double fault runs on a stack of its own: its slot names the
/// reserved stack, and no other slot names any.
pub proof fn lemma_double_fault_stack(backend: Backend, double_fault_stack: u16)
    ensures
        vector_table(backend, double_fault_stack)[DOUBLE_FAULT_VECTOR as int].unwrap().stack_index
            == Some(double_fault_stack),
        forall|i: int|
            0 <= i < VECTOR_COUNT && i != DOUBLE_FAULT_VECTOR && (#[trigger] vector_table(
                backend,
                double_fault_stack,
            )[i]).is_some() ==> vector_table(backend, double_fault_stack)[i].unwrap().stack_index
                == None::<u16>,
{
}

/// What the legacy controllers are told when they are initialized: the first
/// vector of each.
#[derive(Clone, Copy, Debug, PartialEq, Eq, Structural)]
pub struct LegacySetup {
    pub primary_offset: u8,
    pub secondary_offset: u8,
}

/// What the local controller is told when it is built: the vector of each of
/// its three interrupts.
#[derive(Clone, Copy, Debug, PartialEq, Eq, Structural)]
pub struct LocalSetup {
    pub timer_vector: usize,
    pub spurious_vector: usize,
    pub error_vector: usize,
}

impl LegacySetup {
    /// Whether one of the two controllers raises `vector`.
    pub open spec fn spec_raises(self, vector: int) -> bool {
        ||| self.primary_offset <= vector < self.primary_offset + PIC_LINES
        ||| self.secondary_offset <= vector < self.secondary_offset + PIC_LINES
    }

    /// Whether one of the two controllers raises `vector`: each raises the
    /// eight vectors from its offset on.
    pub fn raises(self, vector: u8) -> (raised: bool)
        ensures
            raised == self.spec_raises(vector as int),
    {
        let primary: u16 = self.primary_offset as u16;
        let secondary: u16 = self.secondary_offset as u16;
        let lines: u16 = PIC_LINES as u16;
        let v: u16 = vector as u16;
        (primary <= v && v < primary + lines) || (secondary <= v && v < secondary + lines)
    }
}

impl LocalSetup {
    /// The vector that the local controller raises for `index`.
    pub open spec fn spec_vector_of(self, index: InterruptIndex) -> usize {
        match index {
            InterruptIndex::Timer => self.timer_vector,
            InterruptIndex::Spurious => self.spurious_vector,
            InterruptIndex::ApicError => self.error_vector,
        }
    }

    /// The vector that the local controller raises for `index`.
    #[verifier::when_used_as_spec(spec_vector_of)]
    pub fn vector_of(self, index: InterruptIndex) -> (vector: usize)
        ensures
            vector == self.spec_vector_of(index),
    {
        match index {
            InterruptIndex::Timer => self.timer_vector,
            InterruptIndex::Spurious => self.spurious_vector,
            InterruptIndex::ApicError => self.error_vector,
        }
    }
}

/// The setup of the legacy controllers under either backend.
pub open spec fn spec_legacy_setup() -> LegacySetup {
    LegacySetup { primary_offset: PIC_1_OFFSET, secondary_offset: PIC_2_OFFSET }
}

/// The setup of the local controller.
pub open spec fn spec_local_setup() -> LocalSetup {
    LocalSetup {
        timer_vector: InterruptIndex::Timer.vector(Backend::LocalController) as usize,
        spurious_vector: InterruptIndex::Spurious.vector(Backend::LocalController) as usize,
        error_vector: InterruptIndex::ApicError.vector(Backend::LocalController) as usize,
    }
}

/// The setup of the legacy controllers: their vector ranges lie one behind
/// the other from `PIC_1_OFFSET` on, clear of the processor's own vectors 0 to
/// 31. The legacy controllers are set up like this under either backend.
#[verifier::when_used_as_spec(spec_legacy_setup)]
pub fn legacy_setup() -> (setup: LegacySetup)
    ensures
        setup == spec_legacy_setup(),
        setup.primary_offset == 32,
        setup.secondary_offset == setup.primary_offset + PIC_LINES,
{
    LegacySetup { primary_offset: PIC_1_OFFSET, secondary_offset: PIC_2_OFFSET }
}

/// The setup of the local controller: each of its interrupts on the vector
/// at which the vector table binds the handler.
#[verifier::when_used_as_spec(spec_local_setup)]
pub fn local_setup() -> (setup: LocalSetup)
    ensures
        setup == spec_local_setup(),
        setup.timer_vector == 48,
        setup.spurious_vector == 49,
        setup.error_vector == 50,
{
    LocalSetup {
        timer_vector: InterruptIndex::Timer.as_usize(Backend::LocalController),
        spurious_vector: InterruptIndex::Spurious.as_usize(Backend::LocalController),
        error_vector: InterruptIndex::ApicError.as_usize(Backend::LocalController),
    }
}

/// The vector on which the controller of `backend` raises `index`: under the
/// local controller the vector it was set up with, under the legacy
/// controllers the one that many lines behind the primary offset.
pub open spec fn controller_vector(backend: Backend, index: InterruptIndex) -> int {
    match backend {
        Backend::Legacy => spec_legacy_setup().primary_offset + index.ordinal(),
        Backend::LocalController => spec_local_setup().spec_vector_of(index) as int,
    }
}

/// The vector table and the active controller number the device interrupts
/// alike: at the vector on which the controller raises a bound interrupt, the
/// table holds the handler of that interrupt.
pub proof fn lemma_table_matches_controller(
    backend: Backend,
    double_fault_stack: u16,
    index: InterruptIndex,
)
    requires
        index.spec_is_bound(backend),
    ensures
        controller_vector(backend, index) == index.vector(backend),
        0 <= controller_vector(backend, index) < VECTOR_COUNT,
        vector_table(backend, double_fault_stack)[controller_vector(backend, index)] == Some(
            plain_gate(index.spec_handler()),
        ),
        backend == Backend::Legacy ==> spec_legacy_setup().spec_raises(
            controller_vector(backend, index),
        ),
{
}

/// The device vectors of either backend lie behind the processor's own
/// vectors 0 to 31. Those of the local controller also lie behind the range of
/// the legacy controllers, sixteen vectors above their legacy counterparts, so
/// the legacy controllers raise none of them.
pub proof fn lemma_local_vectors_clear_of_legacy(index: InterruptIndex)
    ensures
        !spec_legacy_setup().spec_raises(index.vector(Backend::LocalController)),
        index.vector(Backend::LocalController) >= PIC_2_OFFSET + PIC_LINES,
        index.vector(Backend::Legacy) >= 32,
        index.vector(Backend::LocalController) == index.vector(Backend::Legacy) + 2 * PIC_LINES,
{
}

/// How a handler tells the controller that a device interrupt has been
/// handled. Until it does, the controller holds back further interrupts of
/// that line.
#[derive(Clone, Copy, Debug, PartialEq, Eq, Structural)]
pub enum Acknowledge {
    /// Notify the legacy controllers of the end of the interrupt `vector`.
    Legacy { vector: u8 },
    /// Write the end-of-interrupt register of the local controller.
    Local,
}

/// What happens to the interrupted context when a handler is done.
#[derive(Clone, Copy, Debug, PartialEq, Eq, Structural)]
pub enum Outcome {
    /// The interrupted context goes on unchanged.
    Resume,
    /// The processor is halted for good.
    Halt,
}

/// What a handler does when its vector arrives.
#[derive(Clone, Copy, Debug)]
pub struct Response {
    /// The line written to the diagnostic output.
    pub message: &'static str,
    /// Whether the trapped register and flags snapshot is written after the
    /// message.
    pub snapshot: bool,
    /// The acknowledgment owed to the controller, if any.
    pub acknowledge: Option<Acknowledge>,
    /// Whether the interrupted context resumes.
    pub outcome: Outcome,
}

/// The acknowledgment of the device interrupt `index` under `backend`.
pub open spec fn spec_acknowledge(backend: Backend, index: InterruptIndex) -> Acknowledge {
    match backend {
        Backend::Legacy => Acknowledge::Legacy { vector: index.vector(backend) as u8 },
        Backend::LocalController => Acknowledge::Local,
    }
}

/// The acknowledgment of the device interrupt `index` under `backend`: the
/// legacy controllers are told the vector, the local controller takes one
/// fixed write whatever the vector.
#[verifier::when_used_as_spec(spec_acknowledge)]
pub fn acknowledge(backend: Backend, index: InterruptIndex) -> (ack: Acknowledge)
    ensures
        ack == spec_acknowledge(backend, index),
{
    match backend {
        Backend::Legacy => Acknowledge::Legacy { vector: index.as_u8(backend) },
        Backend::LocalController => Acknowledge::Local,
    }
}

impl Handler {
    /// The line that the handler writes to the diagnostic output.
    pub open spec fn spec_message(self) -> &'static str {
        match self {
            Handler::Breakpoint => "EXCEPTION: BREAKPOINT",
            Handler::DoubleFault => "EXCEPTION: DOUBLE FAULT",
            Handler::Timer => "Timer interrupt!",
            Handler::Spurious => "SPURIOUS INTERRUPT",
            Handler::ControllerError => "APIC ERROR",
        }
    }

    /// Whether the handler ends in a permanent halt. Only the breakpoint trap
    /// and the timer interrupt return to the interrupted context.
    pub open spec fn spec_is_fatal(self) -> bool {
        self != Handler::Breakpoint && self != Handler::Timer
    }

    /// Whether the handler ends in a permanent halt.
    #[verifier::when_used_as_spec(spec_is_fatal)]
    pub fn is_fatal(self) -> (fatal: bool)
        ensures
            fatal == self.spec_is_fatal(),
    {
        match self {
            Handler::Breakpoint => false,
            Handler::Timer => false,
            _ => true,
        }
    }

    /// What the handler does under `backend`.
    pub open spec fn spec_response(self, backend: Backend) -> Response {
        Response {
            message: self.spec_message(),
            snapshot: self != Handler::Timer,
            acknowledge: if self == Handler::Timer {
                Some(spec_acknowledge(backend, InterruptIndex::Timer))
            } else {
                None
            },
            outcome: if self.spec_is_fatal() {
                Outcome::Halt
            } else {
                Outcome::Resume
            },
        }
    }

    /// What the handler does under `backend`.
    ///
    /// The breakpoint trap writes its message and the snapshot and resumes.
    /// The timer interrupt writes its message, acknowledges the controller of
    /// `backend` and resumes. The double fault, the spurious interrupt and the
    /// controller error write their message and the snapshot and halt.
    pub fn response(self, backend: Backend) -> (response: Response)
        ensures
            response == self.spec_response(backend),
            response.outcome == Outcome::Halt <==> self.spec_is_fatal(),
            response.acknowledge.is_some() <==> self == Handler::Timer,
    {
        match self {
            Handler::Breakpoint => Response {
                message: "EXCEPTION: BREAKPOINT",
                snapshot: true,
                acknowledge: None,
                outcome: Outcome::Resume,
            },
            Handler::DoubleFault => Response {
                message: "EXCEPTION: DOUBLE FAULT",
                snapshot: true,
                acknowledge: None,
                outcome: Outcome::Halt,
            },
            Handler::Timer => Response {
                message: "Timer interrupt!",
                snapshot: false,
                acknowledge: Some(acknowledge(backend, InterruptIndex::Timer)),
                outcome: Outcome::Resume,
            },
            Handler::Spurious => Response {
                message: "SPURIOUS INTERRUPT",
                snapshot: true,
                acknowledge: None,
                outcome: Outcome::Halt,
            },
            Handler::ControllerError => Response {
                message: "APIC ERROR",
                snapshot: true,
                acknowledge: None,
                outcome: Outcome::Halt,
            },
        }
    }
}

/// A handler acknowledges the controller of the backend it was built for and
/// no other: the legacy controllers with a vector of their own range, the
/// local controller without one.
pub proof fn lemma_acknowledge_matches_backend(backend: Backend, index: InterruptIndex)
    requires
        index.spec_is_bound(backend),
    ensures
        backend == Backend::Legacy <==> spec_acknowledge(backend, index) is Legacy,
        backend == Backend::LocalController <==> spec_acknowledge(backend, index) is Local,
        spec_acknowledge(backend, index) matches Acknowledge::Legacy { vector }
            ==> spec_legacy_setup().spec_raises(vector as int) && vector == controller_vector(
            backend,
            index,
        ),
{
}

} // verus!
