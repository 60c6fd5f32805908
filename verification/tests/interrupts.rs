use blog_os::interrupts::{
    acknowledge, legacy_setup, local_setup, Acknowledge, Backend, Gate, Handler, InterruptIndex,
    Outcome, Privilege, VectorTable, BREAKPOINT_VECTOR, DOUBLE_FAULT_VECTOR, PIC_1_OFFSET,
    PIC_2_OFFSET, VECTOR_COUNT,
};

fn plain(handler: Handler) -> Option<Gate> {
    Some(Gate { handler, privilege: Privilege::Supervisor, stack_index: None })
}

#[test]
fn trivial_assertion() {
    assert_eq!(1, 1);
}

#[test]
fn legacy_offsets_are_contiguous() {
    assert_eq!(PIC_1_OFFSET, 32);
    assert_eq!(PIC_2_OFFSET, 40);
    let setup = legacy_setup();
    assert_eq!(setup.primary_offset, 32);
    assert_eq!(setup.secondary_offset, 40);
}

#[test]
fn vector_offset_per_backend() {
    assert_eq!(Backend::Legacy.vector_offset(), 32);
    assert_eq!(Backend::LocalController.vector_offset(), 48);
}

#[test]
fn interrupt_index_under_legacy() {
    assert_eq!(InterruptIndex::Timer.as_u8(Backend::Legacy), 32);
    assert_eq!(InterruptIndex::Spurious.as_u8(Backend::Legacy), 33);
    assert_eq!(InterruptIndex::ApicError.as_u8(Backend::Legacy), 34);
    assert_eq!(InterruptIndex::Timer.as_usize(Backend::Legacy), 32usize);
    assert_eq!(InterruptIndex::Spurious.as_usize(Backend::Legacy), 33usize);
}

#[test]
fn interrupt_index_under_local_controller() {
    assert_eq!(InterruptIndex::Timer.as_u8(Backend::LocalController), 48);
    assert_eq!(InterruptIndex::Spurious.as_u8(Backend::LocalController), 49);
    assert_eq!(InterruptIndex::ApicError.as_u8(Backend::LocalController), 50);
    assert_eq!(InterruptIndex::Timer.as_usize(Backend::LocalController), 48usize);
    assert_eq!(InterruptIndex::ApicError.as_usize(Backend::LocalController), 50usize);
}

#[test]
fn controller_error_is_bound_only_with_local_controller() {
    assert!(InterruptIndex::Timer.is_bound(Backend::Legacy));
    assert!(InterruptIndex::Spurious.is_bound(Backend::Legacy));
    assert!(!InterruptIndex::ApicError.is_bound(Backend::Legacy));
    assert!(InterruptIndex::Timer.is_bound(Backend::LocalController));
    assert!(InterruptIndex::Spurious.is_bound(Backend::LocalController));
    assert!(InterruptIndex::ApicError.is_bound(Backend::LocalController));
}

#[test]
fn device_handlers() {
    assert_eq!(InterruptIndex::Timer.handler(), Handler::Timer);
    assert_eq!(InterruptIndex::Spurious.handler(), Handler::Spurious);
    assert_eq!(InterruptIndex::ApicError.handler(), Handler::ControllerError);
}

#[test]
fn legacy_table_slot_by_slot() {
    let table = VectorTable::build(Backend::Legacy, 0);
    for vector in 0..VECTOR_COUNT {
        let expected = match vector {
            3 => plain(Handler::Breakpoint),
            8 => Some(Gate {
                handler: Handler::DoubleFault,
                privilege: Privilege::Supervisor,
                stack_index: Some(0),
            }),
            32 => plain(Handler::Timer),
            33 => plain(Handler::Spurious),
            _ => None,
        };
        assert_eq!(table.gate(vector as u8), expected, "vector {}", vector);
    }
}

#[test]
fn local_controller_table_slot_by_slot() {
    let table = VectorTable::build(Backend::LocalController, 3);
    for vector in 0..VECTOR_COUNT {
        let expected = match vector {
            3 => plain(Handler::Breakpoint),
            8 => Some(Gate {
                handler: Handler::DoubleFault,
                privilege: Privilege::Supervisor,
                stack_index: Some(3),
            }),
            48 => plain(Handler::Timer),
            49 => plain(Handler::Spurious),
            50 => plain(Handler::ControllerError),
            _ => None,
        };
        assert_eq!(table.gate(vector as u8), expected, "vector {}", vector);
    }
}

#[test]
fn double_fault_alone_switches_stacks() {
    for backend in [Backend::Legacy, Backend::LocalController] {
        for stack in 0..7u16 {
            let table = VectorTable::build(backend, stack);
            for vector in 0..VECTOR_COUNT {
                match table.gate(vector as u8) {
                    Some(gate) if vector == DOUBLE_FAULT_VECTOR as usize => {
                        assert_eq!(gate.handler, Handler::DoubleFault);
                        assert_eq!(gate.stack_index, Some(stack));
                    }
                    Some(gate) => assert_eq!(gate.stack_index, None),
                    None => {}
                }
            }
        }
    }
}

#[test]
fn every_bound_handler_has_one_slot() {
    let legacy = VectorTable::build(Backend::Legacy, 0);
    assert_eq!(legacy.vector_of(Handler::Breakpoint), Some(BREAKPOINT_VECTOR));
    assert_eq!(legacy.vector_of(Handler::DoubleFault), Some(DOUBLE_FAULT_VECTOR));
    assert_eq!(legacy.vector_of(Handler::Timer), Some(32));
    assert_eq!(legacy.vector_of(Handler::Spurious), Some(33));
    assert_eq!(legacy.vector_of(Handler::ControllerError), None);

    let local = VectorTable::build(Backend::LocalController, 0);
    assert_eq!(local.vector_of(Handler::Breakpoint), Some(3));
    assert_eq!(local.vector_of(Handler::DoubleFault), Some(8));
    assert_eq!(local.vector_of(Handler::Timer), Some(48));
    assert_eq!(local.vector_of(Handler::Spurious), Some(49));
    assert_eq!(local.vector_of(Handler::ControllerError), Some(50));

    for table in [&legacy, &local] {
        for handler in [
            Handler::Breakpoint,
            Handler::DoubleFault,
            Handler::Timer,
            Handler::Spurious,
            Handler::ControllerError,
        ] {
            let slots = (0..VECTOR_COUNT)
                .filter(|v| matches!(table.gate(*v as u8), Some(g) if g.handler == handler))
                .count();
            assert!(slots <= 1);
            assert_eq!(slots == 1, table.vector_of(handler).is_some());
        }
    }
}

#[test]
fn table_and_local_controller_agree() {
    let table = VectorTable::build(Backend::LocalController, 0);
    let setup = local_setup();
    assert_eq!(setup.timer_vector, 48);
    assert_eq!(setup.spurious_vector, 49);
    assert_eq!(setup.error_vector, 50);
    for index in [InterruptIndex::Timer, InterruptIndex::Spurious, InterruptIndex::ApicError] {
        let vector = setup.vector_of(index);
        assert_eq!(vector, index.as_usize(Backend::LocalController));
        assert_eq!(table.gate(vector as u8), plain(index.handler()));
    }
}

#[test]
fn table_and_legacy_controller_agree() {
    let table = VectorTable::build(Backend::Legacy, 0);
    let setup = legacy_setup();
    for (line, index) in [InterruptIndex::Timer, InterruptIndex::Spurious].into_iter().enumerate() {
        let vector = setup.primary_offset + line as u8;
        assert_eq!(vector, index.as_u8(Backend::Legacy));
        assert!(setup.raises(vector));
        assert_eq!(table.gate(vector), plain(index.handler()));
    }
}

#[test]
fn legacy_range_is_32_to_47() {
    let setup = legacy_setup();
    for vector in 0..=255u8 {
        assert_eq!(setup.raises(vector), (32..48).contains(&vector), "vector {}", vector);
    }
}

#[test]
fn local_vectors_lie_behind_the_legacy_range() {
    let setup = legacy_setup();
    for index in [InterruptIndex::Timer, InterruptIndex::Spurious, InterruptIndex::ApicError] {
        let local = index.as_u8(Backend::LocalController);
        assert!(!setup.raises(local));
        assert_eq!(local, index.as_u8(Backend::Legacy) + 16);
    }
}

#[test]
fn acknowledge_follows_the_backend() {
    assert_eq!(
        acknowledge(Backend::Legacy, InterruptIndex::Timer),
        Acknowledge::Legacy { vector: 32 }
    );
    assert_eq!(
        acknowledge(Backend::Legacy, InterruptIndex::Spurious),
        Acknowledge::Legacy { vector: 33 }
    );
    assert_eq!(acknowledge(Backend::LocalController, InterruptIndex::Timer), Acknowledge::Local);
    assert_eq!(acknowledge(Backend::LocalController, InterruptIndex::ApicError), Acknowledge::Local);
}

#[test]
fn breakpoint_resumes() {
    for backend in [Backend::Legacy, Backend::LocalController] {
        let response = Handler::Breakpoint.response(backend);
        assert_eq!(response.message, "EXCEPTION: BREAKPOINT");
        assert!(response.snapshot);
        assert_eq!(response.acknowledge, None);
        assert_eq!(response.outcome, Outcome::Resume);
        assert!(!Handler::Breakpoint.is_fatal());
    }
}

#[test]
fn timer_acknowledges_and_resumes() {
    let legacy = Handler::Timer.response(Backend::Legacy);
    assert_eq!(legacy.message, "Timer interrupt!");
    assert!(!legacy.snapshot);
    assert_eq!(legacy.acknowledge, Some(Acknowledge::Legacy { vector: 32 }));
    assert_eq!(legacy.outcome, Outcome::Resume);

    let local = Handler::Timer.response(Backend::LocalController);
    assert_eq!(local.message, "Timer interrupt!");
    assert!(!local.snapshot);
    assert_eq!(local.acknowledge, Some(Acknowledge::Local));
    assert_eq!(local.outcome, Outcome::Resume);
    assert!(!Handler::Timer.is_fatal());
}

#[test]
fn fatal_handlers_halt() {
    let expected = [
        (Handler::DoubleFault, "EXCEPTION: DOUBLE FAULT"),
        (Handler::Spurious, "SPURIOUS INTERRUPT"),
        (Handler::ControllerError, "APIC ERROR"),
    ];
    for backend in [Backend::Legacy, Backend::LocalController] {
        for (handler, message) in expected {
            let response = handler.response(backend);
            assert_eq!(response.message, message);
            assert!(response.snapshot);
            assert_eq!(response.acknowledge, None);
            assert_eq!(response.outcome, Outcome::Halt);
            assert!(handler.is_fatal());
        }
    }
}
