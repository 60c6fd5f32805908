use blog_os::pit::{
    Delay, PortOp, Timer, C0_CAPR, CONTROL_WORD, COUNTER_FREQ, SETTLE_CYCLES, TCW_PORT, TIMER_FREQ,
};

fn program(low: u8, high: u8) -> [PortOp; 5] {
    [
        PortOp::Write { port: 0x43, value: 0b0011_0100 },
        PortOp::Delay { cycles: 1_000_000 },
        PortOp::Write { port: 0x40, value: low },
        PortOp::Delay { cycles: 1_000_000 },
        PortOp::Write { port: 0x40, value: high },
    ]
}

#[test]
fn timer_constants() {
    assert_eq!(TIMER_FREQ, 10);
    assert_eq!(COUNTER_FREQ, 1_193_181);
    assert_eq!(TCW_PORT, 0x43);
    assert_eq!(C0_CAPR, 0x40);
    assert_eq!(CONTROL_WORD, 0x34);
    assert_eq!(SETTLE_CYCLES, 1_000_000);
}

#[test]
fn control_word_fields() {
    assert_eq!(CONTROL_WORD >> 6, 0b00);
    assert_eq!((CONTROL_WORD >> 4) & 0b11, 0b11);
    assert_eq!((CONTROL_WORD >> 1) & 0b111, 0b010);
    assert_eq!(CONTROL_WORD & 1, 0);
}

#[test]
fn divisor_for_10_hz() {
    assert_eq!(Timer::divisor(10), 119_318);
}

#[test]
fn divisor_for_100_hz() {
    assert_eq!(Timer::divisor(100), 11_931);
}

#[test]
fn divisor_for_1000_hz() {
    assert_eq!(Timer::divisor(1000), 1_193);
}

#[test]
fn divisor_is_integer_division() {
    for hz in [1u32, 2, 3, 7, 18, 19, 20, 50, 60, 1_193_180, 1_193_181, 1_193_182, u32::MAX] {
        let divisor = Timer::divisor(hz);
        assert_eq!(divisor, 1_193_181 / hz);
        assert!(divisor as u64 * hz as u64 <= 1_193_181);
        assert!((divisor as u64 + 1) * hz as u64 > 1_193_181);
    }
}

#[test]
fn tick_rate_reaches_the_target() {
    for hz in [1u32, 10, 18, 19, 100, 1000, 44_100, 1_193_181] {
        let divisor = Timer::divisor(hz);
        assert!(divisor > 0);
        assert!(1_193_181 / divisor >= hz);
    }
}

#[test]
fn initial_count_is_the_divisor_where_it_fits() {
    assert_eq!(Timer::initial_count(19), 62_799);
    assert_eq!(Timer::initial_count(100), 11_931);
    assert_eq!(Timer::initial_count(1000), 1_193);
    assert_eq!(Timer::initial_count(1_193_181), 1);
    assert_eq!(Timer::initial_count(1_193_182), 0);
}

#[test]
fn initial_count_keeps_the_low_16_bits() {
    assert_eq!(Timer::initial_count(10), 53_782);
    assert_eq!(Timer::initial_count(18), 751);
    assert_eq!(Timer::initial_count(1), (1_193_181u32 % 65_536) as u16);
}

#[test]
fn configure_100_hz() {
    assert_eq!(Timer::configure(100), program(0x9B, 0x2E));
}

#[test]
fn configure_1000_hz() {
    assert_eq!(Timer::configure(1000), program(0xA9, 0x04));
}

#[test]
fn configure_10_hz() {
    assert_eq!(Timer::configure(10), program(0x16, 0xD2));
}

#[test]
fn init_programs_the_kernel_frequency() {
    assert_eq!(Timer::init(), Timer::configure(TIMER_FREQ));
    assert_eq!(Timer::init(), program(0x16, 0xD2));
}

#[test]
fn writes_are_spaced() {
    let ops = Timer::configure(250);
    for pair in ops.windows(2) {
        let first = matches!(pair[0], PortOp::Write { .. });
        let second = matches!(pair[1], PortOp::Write { .. });
        assert!(!(first && second));
    }
    assert_eq!(ops[0], PortOp::Write { port: 0x43, value: 0x34 });
    assert_eq!(ops[2], PortOp::Write { port: 0x40, value: (4772u16 & 0xff) as u8 });
    assert_eq!(ops[4], PortOp::Write { port: 0x40, value: (4772u16 >> 8) as u8 });
}

#[test]
fn delay_expires_after_its_cycles() {
    let delay = Delay::new(1_000, 1_000_000);
    assert_eq!(delay, Delay { start: 1_000, cycles: 1_000_000 });
    assert!(!delay.expired(1_000));
    assert!(!delay.expired(1_000_999));
    assert!(delay.expired(1_001_000));
    assert!(delay.expired(u64::MAX));
}

#[test]
fn delay_of_no_cycles_is_over_at_once() {
    assert!(Delay::new(5, 0).expired(5));
}
