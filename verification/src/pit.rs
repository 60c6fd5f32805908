//! Programming of the 8254 programmable interval timer, the periodic tick
//! source of the legacy interrupt path.

use vstd::prelude::*;

verus! {

/// Tick frequency in Hz that the kernel asks for.
pub const TIMER_FREQ: u32 = 10;

/// The 8254 unit's counter frequency in Hz.
pub const COUNTER_FREQ: u32 = 1_193_181;

/// I/O port that takes the timer control word.
pub const TCW_PORT: u16 = 0x43;

/// I/O port that takes the count of counter 0.
pub const C0_CAPR: u16 = 0x40;

/// The control word written before the count:
/// `00` counter 0, `11` low byte then high byte, `010` rate generator,
/// `0` binary count.
pub const CONTROL_WORD: u8 = 0b0011_0100;

/// Cycles to wait after each write before the next one.
pub const SETTLE_CYCLES: u64 = 1_000_000;

/// Number of values that the 16-bit count register can hold.
pub const COUNT_MODULUS: u32 = 0x1_0000;

/// One step of a port program.
#[derive(Clone, Copy, Debug, PartialEq, Eq, Structural)]
pub enum PortOp {
    /// Write `value` to the I/O port `port`.
    Write { port: u16, value: u8 },
    /// Wait until at least `cycles` cycles of the cycle counter have passed.
    Delay { cycles: u64 },
}

/// The 8254 programmable interval timer.
///
/// Counter 0 fires the timer interrupt line each time it has counted the
/// programmed number of cycles of `COUNTER_FREQ`.
#[derive(Clone, Copy, Debug)]
pub struct Timer;

impl Timer {
    /// Counter cycles per tick for a target of `hz` ticks per second.
    pub open spec fn spec_divisor(hz: u32) -> int {
        COUNTER_FREQ as int / hz as int
    }

    /// The 16 bits of the divisor that the count register takes.
    pub open spec fn spec_initial_count(hz: u32) -> int {
        Self::spec_divisor(hz) % COUNT_MODULUS as int
    }

    /// The port program that `configure` gives for `hz`.
    pub open spec fn spec_program(hz: u32) -> Seq<PortOp> {
        seq![
            PortOp::Write { port: TCW_PORT, value: CONTROL_WORD },
            PortOp::Delay { cycles: SETTLE_CYCLES },
            PortOp::Write { port: C0_CAPR, value: (Self::spec_initial_count(hz) % 256) as u8 },
            PortOp::Delay { cycles: SETTLE_CYCLES },
            PortOp::Write { port: C0_CAPR, value: (Self::spec_initial_count(hz) / 256) as u8 },
        ]
    }

    /// Counter cycles per tick for a target of `hz` ticks per second: the
    /// counter frequency divided by `hz`, rounded down.
    pub fn divisor(hz: u32) -> (divisor: u32)
        requires
            hz > 0,
        ensures
            divisor == Self::spec_divisor(hz),
            divisor == 1_193_181int / (hz as int),
    {
        COUNTER_FREQ / hz
    }

    /// The value loaded into the 16-bit count register: the low 16 bits of the
    /// divisor. It is the divisor itself wherever the divisor fits.
    pub fn initial_count(hz: u32) -> (count: u16)
        requires
            hz > 0,
        ensures
            count == Self::spec_initial_count(hz),
            Self::spec_divisor(hz) < COUNT_MODULUS ==> count == Self::spec_divisor(hz),
    {
        (Self::divisor(hz) % COUNT_MODULUS) as u16
    }

    /// The port program that makes counter 0 tick `hz` times per second.
    ///
    /// It writes the control word, then the low byte of the count, then the
    /// high byte, and waits `SETTLE_CYCLES` between any two writes.
    pub fn configure(hz: u32) -> (program: [PortOp; 5])
        requires
            hz > 0,
        ensures
            program@ == Self::spec_program(hz),
    {
        let count: u16 = Self::initial_count(hz);
        let low: u8 = (count % 256) as u8;
        let high: u8 = (count / 256) as u8;
        let program: [PortOp; 5] = [
            PortOp::Write { port: TCW_PORT, value: CONTROL_WORD },
            PortOp::Delay { cycles: SETTLE_CYCLES },
            PortOp::Write { port: C0_CAPR, value: low },
            PortOp::Delay { cycles: SETTLE_CYCLES },
            PortOp::Write { port: C0_CAPR, value: high },
        ];
        program
    }

    /// The port program for the kernel's tick frequency, `TIMER_FREQ`.
    pub fn init() -> (program: [PortOp; 5])
        ensures
            program@ == Self::spec_program(TIMER_FREQ),
    {
        Self::configure(TIMER_FREQ)
    }
}

/// The divisor is the largest number of counter cycles per tick with which
/// the timer ticks at least `hz` times per second.
pub proof fn lemma_divisor_bounds(hz: u32)
    requires
        hz > 0,
    ensures
        Timer::spec_divisor(hz) * hz <= COUNTER_FREQ < (Timer::spec_divisor(hz) + 1) * hz,
        0 <= Timer::spec_divisor(hz) <= COUNTER_FREQ,
{
    let f: int = COUNTER_FREQ as int;
    let h: int = hz as int;
    assert(f == h * (f / h) + f % h && 0 <= f % h < h) by (nonlinear_arith)
        requires
            h > 0,
    ;
    assert((f / h) * h == h * (f / h)) by (nonlinear_arith);
    assert((f / h + 1) * h == h * (f / h) + h) by (nonlinear_arith);
    assert(0 <= f / h <= f) by (nonlinear_arith)
        requires
            h > 0,
            f >= 0,
    ;
}

/// A timer that counts the divisor for `hz` ticks at `COUNTER_FREQ / divisor`
/// Hz, which is never less than `hz`.
pub proof fn lemma_tick_rate_reaches_target(hz: u32)
    requires
        0 < hz <= COUNTER_FREQ,
    ensures
        Timer::spec_divisor(hz) > 0,
        COUNTER_FREQ as int / Timer::spec_divisor(hz) >= hz,
{
    lemma_divisor_bounds(hz);
    let f: int = COUNTER_FREQ as int;
    let h: int = hz as int;
    let d: int = Timer::spec_divisor(hz);
    assert(d > 0) by (nonlinear_arith)
        requires
            (d + 1) * h > f,
            0 < h <= f,
            d >= 0,
    ;
    assert(f / d >= h) by (nonlinear_arith)
        requires
            d * h <= f,
            d > 0,
    ;
}

/// From 19 Hz on the divisor fits the count register, so the register holds
/// the divisor itself. Below 19 Hz the divisor does not fit, and the register
/// holds less than the divisor.
pub proof fn lemma_count_is_divisor(hz: u32)
    requires
        hz > 0,
    ensures
        hz >= 19 ==> Timer::spec_initial_count(hz) == Timer::spec_divisor(hz),
        hz < 19 ==> Timer::spec_initial_count(hz) < Timer::spec_divisor(hz),
{
    lemma_divisor_bounds(hz);
    let d: int = Timer::spec_divisor(hz);
    let h: int = hz as int;
    if hz >= 19 {
        assert(d < 0x1_0000) by (nonlinear_arith)
            requires
                d * h <= 1_193_181,
                h >= 19,
                d >= 0,
        ;
    } else {
        assert(d >= 0x1_0000) by (nonlinear_arith)
            requires
                (d + 1) * h > 1_193_181,
                0 < h < 19,
        ;
    }
}

/// The fields of the control word: counter 0 in bits 7 and 6, access by low
/// byte then high byte in bits 5 and 4, rate generator in bits 3 to 1, binary
/// count in bit 0.
pub proof fn lemma_control_word_fields()
    ensures
        (CONTROL_WORD >> 6) & 0b11 == 0b00,
        (CONTROL_WORD >> 4) & 0b11 == 0b11,
        (CONTROL_WORD >> 1) & 0b111 == 0b010,
        CONTROL_WORD & 0b1 == 0b0,
{
    assert((0b0011_0100u8 >> 6) & 0b11 == 0b00) by (bit_vector);
    assert((0b0011_0100u8 >> 4) & 0b11 == 0b11) by (bit_vector);
    assert((0b0011_0100u8 >> 1) & 0b111 == 0b010) by (bit_vector);
    assert(0b0011_0100u8 & 0b1 == 0b0) by (bit_vector);
}

/// A wait for a number of cycles of a monotonic cycle counter.
#[derive(Clone, Copy, Debug, PartialEq, Eq, Structural)]
pub struct Delay {
    /// Reading of the counter when the wait began.
    pub start: u64,
    /// Cycles to wait.
    pub cycles: u64,
}

impl Delay {
    /// A wait of `cycles` cycles that begins at the counter reading `start`.
    pub fn new(start: u64, cycles: u64) -> (delay: Delay)
        ensures
            delay == (Delay { start, cycles }),
    {
        Delay { start, cycles }
    }

    /// Whether the wait is over at the counter reading `now`: at least
    /// `cycles` cycles have passed since `start`.
    pub fn expired(&self, now: u64) -> (over: bool)
        requires
            self.start <= now,
        ensures
            over == (now - self.start >= self.cycles),
    {
        now - self.start >= self.cycles
    }
}

} // verus!
