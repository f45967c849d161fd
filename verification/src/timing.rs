//! Bus mode and timing-register arithmetic.
//!
//! From the requested bus mode and the peripheral input clock the driver
//! derives two register values: the rise-time bound and the rate divisor.
//! Values that the hardware stores in fewer bits than the arithmetic needs
//! are truncated exactly as the registers would truncate them.

use vstd::prelude::*;

use crate::registers::Ccr;

verus! {

/// Fast-mode timing profile: the high/low period ratio of the bus clock.
#[derive(Clone, Copy, Debug, PartialEq, Eq, Structural)]
pub enum DutyCycle {
    /// High/low ratio 2:1.
    Ratio2to1,
    /// High/low ratio 16:9.
    Ratio16to9,
}

/// The requested bus mode: standard mode or fast mode with a duty-cycle
/// profile, each with a target bus frequency in Hz.
#[derive(Clone, Copy, Debug, PartialEq, Eq, Structural)]
pub enum Mode {
    /// Standard mode.
    Standard {
        /// Target bus frequency in Hz.
        frequency: u32,
    },
    /// Fast mode.
    Fast {
        /// Target bus frequency in Hz.
        frequency: u32,
        /// Timing profile of the bus clock.
        duty_cycle: DutyCycle,
    },
}

/// The hardware ceiling on the requested bus frequency, in Hz.
pub const MAX_FREQUENCY_HZ: u32 = 400_000;

impl Mode {
    /// The requested bus frequency in Hz.
    pub open spec fn spec_frequency(self) -> u32 {
        match self {
            Mode::Standard { frequency } => frequency,
            Mode::Fast { frequency, .. } => frequency,
        }
    }

    /// The requested bus frequency in Hz.
    pub fn get_frequency(&self) -> (r: u32)
        ensures
            r == self.spec_frequency(),
    {
        match self {
            Mode::Standard { frequency } => *frequency,
            Mode::Fast { frequency, .. } => *frequency,
        }
    }

    /// Mode invariant: the requested frequency is nonzero and within the
    /// hardware ceiling.
    pub open spec fn valid(self) -> bool {
        1 <= self.spec_frequency() <= MAX_FREQUENCY_HZ
    }
}

/// Clock-tree frequencies this driver consumes, in Hz.
#[derive(Clone, Copy, Debug, PartialEq, Eq, Structural)]
pub struct Clocks {
    /// System clock frequency, used to scale microsecond timeouts to cycles.
    pub sysclk_hz: u32,
    /// Input clock frequency of the bus the peripheral hangs on.
    pub pclk1_hz: u32,
}

/// The rise-time register value: input clock MHz plus one in standard mode,
/// 300/1000 of the input clock MHz plus one in fast mode, truncated to the
/// register's eight bits.
pub open spec fn spec_trise_value(m: Mode, pclk1: u32) -> u8 {
    let mhz = pclk1 as int / 1_000_000;
    match m {
        Mode::Standard { .. } => ((mhz + 1) % 256) as u8,
        Mode::Fast { .. } => ((mhz * 300 / 1000 + 1) % 256) as u8,
    }
}

/// The standard-mode rate divisor: the input clock divided by twice the
/// target frequency, truncated to the register's sixteen bits, floored at 4.
pub open spec fn spec_standard_divisor(pclk1: int, frequency: int) -> int {
    let q = (pclk1 / (2 * frequency)) % 0x10000;
    if q < 4 {
        4
    } else {
        q
    }
}

/// The fast-mode rate divisor: the input clock divided by three times the
/// target frequency (ratio 2:1) or twenty-five times it (ratio 16:9),
/// truncated to the register's sixteen bits, floored at 1.
pub open spec fn spec_fast_divisor(pclk1: int, frequency: int, duty_cycle: DutyCycle) -> int {
    let q = match duty_cycle {
        DutyCycle::Ratio2to1 => (pclk1 / (3 * frequency)) % 0x10000,
        DutyCycle::Ratio16to9 => (pclk1 / (25 * frequency)) % 0x10000,
    };
    if q < 1 {
        1
    } else {
        q
    }
}

/// The whole clock-control register value for a mode: divisor, duty-profile
/// flag and fast-mode flag.
pub open spec fn spec_ccr_value(m: Mode, pclk1: u32) -> Ccr {
    match m {
        Mode::Standard { frequency } => Ccr {
            divisor: spec_standard_divisor(pclk1 as int, frequency as int) as u16,
            duty: false,
            fast_mode: false,
        },
        Mode::Fast { frequency, duty_cycle } => Ccr {
            divisor: spec_fast_divisor(pclk1 as int, frequency as int, duty_cycle) as u16,
            duty: duty_cycle is Ratio16to9,
            fast_mode: true,
        },
    }
}

/// Compute the rise-time register value for a mode and input clock.
pub fn compute_trise(mode: &Mode, pclk1: u32) -> (r: u8)
    ensures
        r == spec_trise_value(*mode, pclk1),
{
    let mhz: u32 = pclk1 / 1_000_000;
    proof {
        assert(mhz <= 4294) by (nonlinear_arith)
            requires
                mhz == pclk1 as int / 1_000_000,
                pclk1 <= 0xFFFF_FFFFu32,
        ;
    }
    match mode {
        Mode::Standard { .. } => ((mhz + 1) % 256) as u8,
        Mode::Fast { .. } => ((mhz * 300 / 1000 + 1) % 256) as u8,
    }
}

/// Compute the clock-control register value for a mode and input clock.
pub fn compute_ccr(mode: &Mode, pclk1: u32) -> (r: Ccr)
    requires
        mode.valid(),
    ensures
        r == spec_ccr_value(*mode, pclk1),
{
    match mode {
        Mode::Standard { frequency } => {
            let q: u32 = (pclk1 / (2 * *frequency)) % 0x10000;
            let divisor: u16 = if q < 4 {
                4
            } else {
                q as u16
            };
            Ccr { divisor, duty: false, fast_mode: false }
        },
        Mode::Fast { frequency, duty_cycle } => {
            let q: u32 = match duty_cycle {
                DutyCycle::Ratio2to1 => (pclk1 / (3 * *frequency)) % 0x10000,
                DutyCycle::Ratio16to9 => (pclk1 / (25 * *frequency)) % 0x10000,
            };
            let divisor: u16 = if q < 1 {
                1
            } else {
                q as u16
            };
            Ccr { divisor, duty: matches!(duty_cycle, DutyCycle::Ratio16to9), fast_mode: true }
        },
    }
}

/// Law: for any standard-mode request within the mode invariant and any input
/// clock, the computed divisor is at least 4; where the exact quotient
/// `pclk1 / (2 * frequency)` lies between 4 and the register's capacity, the
/// divisor is exactly that quotient (integer floor); below 4 it is floored at
/// 4; and neither the duty flag nor the fast-mode flag is set.
pub proof fn lemma_standard_timing(pclk1: u32, frequency: u32)
    requires
        1 <= frequency <= MAX_FREQUENCY_HZ,
    ensures
        spec_ccr_value(Mode::Standard { frequency }, pclk1).divisor >= 4,
        4 <= pclk1 as int / (2 * frequency as int) < 0x10000 ==> spec_ccr_value(
            Mode::Standard { frequency },
            pclk1,
        ).divisor == pclk1 as int / (2 * frequency as int),
        pclk1 as int / (2 * frequency as int) < 4 ==> spec_ccr_value(
            Mode::Standard { frequency },
            pclk1,
        ).divisor == 4,
        !spec_ccr_value(Mode::Standard { frequency }, pclk1).duty,
        !spec_ccr_value(Mode::Standard { frequency }, pclk1).fast_mode,
{
    let q0 = pclk1 as int / (2 * frequency as int);
    assert(0 <= q0) by (nonlinear_arith)
        requires
            q0 == pclk1 as int / (2 * frequency as int),
            pclk1 >= 0,
            frequency >= 1,
    ;
    assert(0 <= q0 % 0x10000 < 0x10000) by (nonlinear_arith)
        requires
            q0 >= 0,
    ;
    assert(q0 < 0x10000 ==> q0 % 0x10000 == q0) by (nonlinear_arith)
        requires
            q0 >= 0,
    ;
}

/// Law: for any fast-mode, ratio 2:1 request within the mode invariant and
/// any input clock, the computed divisor is at least 1, the duty flag is
/// cleared, and the fast-mode flag is set.
pub proof fn lemma_fast_ratio2to1_timing(pclk1: u32, frequency: u32)
    requires
        1 <= frequency <= MAX_FREQUENCY_HZ,
    ensures
        spec_ccr_value(
            Mode::Fast { frequency, duty_cycle: DutyCycle::Ratio2to1 },
            pclk1,
        ).divisor >= 1,
        !spec_ccr_value(Mode::Fast { frequency, duty_cycle: DutyCycle::Ratio2to1 }, pclk1).duty,
        spec_ccr_value(
            Mode::Fast { frequency, duty_cycle: DutyCycle::Ratio2to1 },
            pclk1,
        ).fast_mode,
{
    let q0 = pclk1 as int / (3 * frequency as int);
    assert(0 <= q0) by (nonlinear_arith)
        requires
            q0 == pclk1 as int / (3 * frequency as int),
            pclk1 >= 0,
            frequency >= 1,
    ;
    assert(0 <= q0 % 0x10000 < 0x10000) by (nonlinear_arith)
        requires
            q0 >= 0,
    ;
}

/// Law: for any fast-mode, ratio 16:9 request within the mode invariant and
/// any input clock, the computed divisor is at least 1, the duty flag is set,
/// and the fast-mode flag is set.
pub proof fn lemma_fast_ratio16to9_timing(pclk1: u32, frequency: u32)
    requires
        1 <= frequency <= MAX_FREQUENCY_HZ,
    ensures
        spec_ccr_value(
            Mode::Fast { frequency, duty_cycle: DutyCycle::Ratio16to9 },
            pclk1,
        ).divisor >= 1,
        spec_ccr_value(Mode::Fast { frequency, duty_cycle: DutyCycle::Ratio16to9 }, pclk1).duty,
        spec_ccr_value(
            Mode::Fast { frequency, duty_cycle: DutyCycle::Ratio16to9 },
            pclk1,
        ).fast_mode,
{
    let q0 = pclk1 as int / (25 * frequency as int);
    assert(0 <= q0) by (nonlinear_arith)
        requires
            q0 == pclk1 as int / (25 * frequency as int),
            pclk1 >= 0,
            frequency >= 1,
    ;
    assert(0 <= q0 % 0x10000 < 0x10000) by (nonlinear_arith)
        requires
            q0 >= 0,
    ;
}

} // verus!
