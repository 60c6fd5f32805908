use blog_os::boot::{init, BootState, InitStep, LegacyState};
use blog_os::interrupts::Backend;

#[test]
fn legacy_bring_up_order() {
    assert_eq!(
        init(Backend::Legacy),
        vec![
            InitStep::LoadVectorTable,
            InitStep::InitializeLegacy,
            InitStep::ProgramTimer,
            InitStep::EnableInterrupts,
        ]
    );
}

#[test]
fn local_controller_bring_up_order() {
    assert_eq!(
        init(Backend::LocalController),
        vec![
            InitStep::LoadVectorTable,
            InitStep::InitializeLegacy,
            InitStep::DisableLegacy,
            InitStep::EnableLocal,
            InitStep::EnableInterrupts,
        ]
    );
}

#[test]
fn init_is_reachable_through_the_interrupts_module() {
    assert_eq!(blog_os::interrupts::init(Backend::Legacy), init(Backend::Legacy));
}

#[test]
fn reset_state_has_nothing_done() {
    let state = BootState::reset();
    assert!(!state.table_loaded);
    assert_eq!(state.legacy, LegacyState::Reset);
    assert!(!state.local_enabled);
    assert!(!state.timer_programmed);
    assert!(!state.interrupts_enabled);
}

#[test]
fn apply_records_one_step() {
    let reset = BootState::reset();
    assert_eq!(
        reset.apply(InitStep::LoadVectorTable),
        BootState { table_loaded: true, ..reset }
    );
    assert_eq!(
        reset.apply(InitStep::InitializeLegacy),
        BootState { legacy: LegacyState::Active, ..reset }
    );
    assert_eq!(
        reset.apply(InitStep::DisableLegacy),
        BootState { legacy: LegacyState::Disabled, ..reset }
    );
    assert_eq!(reset.apply(InitStep::EnableLocal), BootState { local_enabled: true, ..reset });
    assert_eq!(
        reset.apply(InitStep::ProgramTimer),
        BootState { timer_programmed: true, ..reset }
    );
    assert_eq!(
        reset.apply(InitStep::EnableInterrupts),
        BootState { interrupts_enabled: true, ..reset }
    );
}

#[test]
fn next_step_walks_the_bring_up() {
    for backend in [Backend::Legacy, Backend::LocalController] {
        let mut state = BootState::reset();
        let mut walked = Vec::new();
        while let Some(step) = state.next_step(backend) {
            walked.push(step);
            state = state.apply(step);
            assert!(walked.len() <= 5);
        }
        assert_eq!(walked, init(backend));
        assert_eq!(state.next_step(backend), None);
    }
}

#[test]
fn one_backend_is_active_once_interrupts_are_unmasked() {
    for backend in [Backend::Legacy, Backend::LocalController] {
        let mut state = BootState::reset();
        for step in init(backend) {
            let both = state.legacy == LegacyState::Active && state.local_enabled;
            assert!(!both);
            assert!(!state.interrupts_enabled);
            state = state.apply(step);
        }
        assert!(state.interrupts_enabled);
        assert!(state.only_active(backend));
        assert!(state.ready(backend));
    }
    let other = [Backend::LocalController, Backend::Legacy];
    for (backend, other) in [Backend::Legacy, Backend::LocalController].into_iter().zip(other) {
        let mut state = BootState::reset();
        for step in init(backend) {
            state = state.apply(step);
        }
        assert!(!state.only_active(other));
    }
}

#[test]
fn legacy_is_disabled_when_the_local_controller_runs() {
    let mut state = BootState::reset();
    for step in init(Backend::LocalController) {
        state = state.apply(step);
    }
    assert_eq!(state.legacy, LegacyState::Disabled);
    assert!(state.local_enabled);
    assert!(!state.timer_programmed);
}

#[test]
fn ready_only_after_every_earlier_step() {
    for backend in [Backend::Legacy, Backend::LocalController] {
        let steps = init(backend);
        let mut state = BootState::reset();
        for step in &steps[..steps.len() - 1] {
            assert!(!state.ready(backend));
            state = state.apply(*step);
        }
        assert!(state.ready(backend));
        assert_eq!(state.next_step(backend), Some(InitStep::EnableInterrupts));
    }
}

#[test]
fn legacy_is_not_ready_without_the_timer() {
    let state = BootState::reset()
        .apply(InitStep::LoadVectorTable)
        .apply(InitStep::InitializeLegacy);
    assert!(state.only_active(Backend::Legacy));
    assert!(!state.ready(Backend::Legacy));
    assert!(state.apply(InitStep::ProgramTimer).ready(Backend::Legacy));
}
