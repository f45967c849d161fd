use i2c_slave::controller::BlockingI2cSlave;
use i2c_slave::driver::ConfigError;
use i2c_slave::registers::I2cPort;
use i2c_slave::timing::{compute_ccr, compute_trise, Clocks, DutyCycle, Mode};

fn clocks() -> Clocks {
    Clocks { sysclk_hz: 72_000_000, pclk1_hz: 36_000_000 }
}

#[test]
fn standard_divisor_exact() {
    let m = Mode::Standard { frequency: 100_000 };
    let c = compute_ccr(&m, 36_000_000);
    assert_eq!(c.divisor, 180);
    assert!(!c.duty);
    assert!(!c.fast_mode);
}

#[test]
fn standard_divisor_floored_at_four() {
    let m = Mode::Standard { frequency: 400_000 };
    let c = compute_ccr(&m, 1_000_000);
    assert_eq!(c.divisor, 4);
}

#[test]
fn standard_trise_is_clock_mhz_plus_one() {
    let m = Mode::Standard { frequency: 100_000 };
    assert_eq!(compute_trise(&m, 36_000_000), 37);
    assert_eq!(compute_trise(&m, 8_000_000), 9);
}

#[test]
fn trise_truncates_to_register_width() {
    let m = Mode::Standard { frequency: 100_000 };
    assert_eq!(compute_trise(&m, 300_000_000), 45);
}

#[test]
fn fast_ratio2to1_divisor_and_flags() {
    let m = Mode::Fast { frequency: 400_000, duty_cycle: DutyCycle::Ratio2to1 };
    let c = compute_ccr(&m, 36_000_000);
    assert_eq!(c.divisor, 30);
    assert!(!c.duty);
    assert!(c.fast_mode);
}

#[test]
fn fast_ratio16to9_divisor_and_flags() {
    let m = Mode::Fast { frequency: 400_000, duty_cycle: DutyCycle::Ratio16to9 };
    let c = compute_ccr(&m, 36_000_000);
    assert_eq!(c.divisor, 3);
    assert!(c.duty);
    assert!(c.fast_mode);
}

#[test]
fn fast_divisor_floored_at_one() {
    let m = Mode::Fast { frequency: 400_000, duty_cycle: DutyCycle::Ratio2to1 };
    let c = compute_ccr(&m, 1_000_000);
    assert_eq!(c.divisor, 1);
}

#[test]
fn fast_trise_value() {
    let m = Mode::Fast { frequency: 400_000, duty_cycle: DutyCycle::Ratio2to1 };
    assert_eq!(compute_trise(&m, 36_000_000), 11);
}

#[test]
fn construction_rejects_frequency_above_ceiling() {
    let over = 400_001;
    let modes = [
        Mode::Standard { frequency: over },
        Mode::Fast { frequency: over, duty_cycle: DutyCycle::Ratio2to1 },
        Mode::Fast { frequency: over, duty_cycle: DutyCycle::Ratio16to9 },
    ];
    for m in modes {
        let r = BlockingI2cSlave::i2c1_slave(I2cPort::at_reset(), m, clocks(), 10, 3, 10, 10);
        assert!(matches!(r, Err(ConfigError::FrequencyTooHigh)));
    }
}

#[test]
fn construction_accepts_frequency_at_ceiling() {
    let m = Mode::Fast { frequency: 400_000, duty_cycle: DutyCycle::Ratio2to1 };
    let r = BlockingI2cSlave::i2c1_slave(I2cPort::at_reset(), m, clocks(), 10, 3, 10, 10);
    assert!(r.is_ok());
}

#[test]
fn construction_programs_registers_and_enables() {
    let m = Mode::Standard { frequency: 100_000 };
    let s = BlockingI2cSlave::i2c1_slave(I2cPort::at_reset(), m, clocks(), 10, 3, 10, 10)
        .unwrap();
    assert_eq!(s.nb.i2c.cr2_freq, 36);
    assert_eq!(s.nb.i2c.trise, 37);
    assert_eq!(s.nb.i2c.ccr.divisor, 180);
    assert_eq!(s.nb.i2c.oar1.add, 0x40);
    assert!(!s.nb.i2c.oar1.addmode);
    assert!(s.nb.i2c.cr1.pe);
    assert!(s.nb.i2c.cr1.ack);
    assert!(s.nb.i2c.cr1.engc);
}

#[test]
fn construction_scales_timeouts_by_sysclk_mhz() {
    let m = Mode::Standard { frequency: 100_000 };
    let s = BlockingI2cSlave::i2c1_slave(I2cPort::at_reset(), m, clocks(), 10, 3, 20, 30)
        .unwrap();
    assert_eq!(s.start_timeout, 720);
    assert_eq!(s.start_retries, 3);
    assert_eq!(s.addr_timeout, 1440);
    assert_eq!(s.data_timeout, 2160);
}
