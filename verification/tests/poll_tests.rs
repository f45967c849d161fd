use i2c_slave::controller::BlockingI2cSlave;
use i2c_slave::driver::{Fault, I2c};
use i2c_slave::events::Event;
use i2c_slave::registers::I2cPort;
use i2c_slave::timing::{Clocks, Mode};

fn make_slave() -> BlockingI2cSlave {
    BlockingI2cSlave::i2c1_slave(
        I2cPort::at_reset(),
        Mode::Standard { frequency: 100_000 },
        Clocks { sysclk_hz: 72_000_000, pclk1_hz: 36_000_000 },
        10,
        3,
        10,
        10,
    )
    .unwrap()
}

#[test]
fn poll_with_nothing_pending_does_nothing() {
    let mut s = make_slave();
    let out = s.listen();
    assert_eq!(out.event, None);
    assert_eq!(out.fault, None);
    assert!(!out.errors.any());
    assert_eq!(s.nb.i2c.dr_reads, 0);
    assert_eq!(s.nb.i2c.dr_writes, 0);
    assert!(s.diagnostic_sink.is_empty());
}

#[test]
fn transmit_address_match_writes_exactly_one_byte() {
    let mut s = make_slave();
    s.nb.i2c.sr2.busy = true;
    s.nb.i2c.sr2.tra = true;
    s.nb.i2c.sr1.txe = true;
    s.nb.i2c.sr1.addr = true;
    let out = s.listen();
    assert_eq!(out.event, Some(Event::TransmitterAddressMatched));
    assert_eq!(out.fault, None);
    assert_eq!(s.nb.i2c.dr_writes, 1);
    assert_eq!(s.nb.i2c.dr_reads, 0);
    assert_eq!(s.nb.i2c.dr, 0x0A);
    assert!(s.diagnostic_sink.is_empty());
}

#[test]
fn byte_received_reads_exactly_one_byte_and_forwards_it() {
    let mut s = make_slave();
    s.nb.i2c.sr2.busy = true;
    s.nb.i2c.sr1.rxne = true;
    s.nb.i2c.dr = 0x5A;
    let out = s.listen();
    assert_eq!(out.event, Some(Event::ByteReceived));
    assert_eq!(s.nb.i2c.dr_reads, 1);
    assert_eq!(s.nb.i2c.dr_writes, 0);
    assert_eq!(s.diagnostic_sink, vec![0x5A]);
}

#[test]
fn further_transmit_requests_send_the_next_response() {
    let mut s = make_slave();
    s.nb.i2c.sr2.busy = true;
    s.nb.i2c.sr2.tra = true;
    s.nb.i2c.sr1.txe = true;
    s.nb.i2c.sr1.btf = true;
    let out = s.listen();
    assert_eq!(out.event, Some(Event::ByteTransmitted));
    assert_eq!(s.nb.i2c.dr_writes, 1);
    assert_eq!(s.nb.i2c.dr, 0x0B);
}

#[test]
fn configured_response_source_replaces_the_defaults() {
    let mut s = make_slave();
    s.set_response_bytes(0x11, 0x22);
    s.nb.i2c.sr2.busy = true;
    s.nb.i2c.sr2.tra = true;
    s.nb.i2c.sr1.txe = true;
    s.nb.i2c.sr1.addr = true;
    s.listen();
    assert_eq!(s.nb.i2c.dr, 0x11);
    s.nb.i2c.sr1.addr = false;
    s.listen();
    assert_eq!(s.nb.i2c.dr, 0x22);
    assert_eq!(s.nb.i2c.dr_writes, 2);
}

#[test]
fn receiver_address_match_takes_no_data_action() {
    let mut s = make_slave();
    s.nb.i2c.sr2.busy = true;
    s.nb.i2c.sr1.addr = true;
    let out = s.listen();
    assert_eq!(out.event, Some(Event::ReceiverAddressMatched));
    assert_eq!(s.nb.i2c.dr_reads, 0);
    assert_eq!(s.nb.i2c.dr_writes, 0);
    assert!(!s.nb.i2c.sr1.addr);
}

#[test]
fn stop_clear_converges_when_the_flag_clears_on_write() {
    let mut s = make_slave();
    s.nb.i2c.sr1.stopf = true;
    let out = s.listen();
    assert_eq!(out.event, Some(Event::StopDetected));
    assert_eq!(out.fault, None);
    assert!(!s.nb.i2c.sr1.stopf);
    assert!(s.nb.i2c.cr1.ack);
    let again = s.listen();
    assert_eq!(again.event, None);
    assert_eq!(again.fault, None);
}

#[test]
fn stop_clear_reports_a_fault_when_the_flag_never_clears() {
    let mut s = make_slave();
    s.nb.i2c.stopf_clears_on_cr1_write = false;
    s.nb.i2c.sr1.stopf = true;
    for _ in 0..3 {
        let out = s.listen();
        assert_eq!(out.event, Some(Event::StopDetected));
        assert_eq!(out.fault, Some(Fault::StopClearTimeout));
        assert!(s.nb.i2c.sr1.stopf);
    }
}

#[test]
fn one_clear_call_clears_any_error_subset() {
    let subsets: [fn(&mut I2cPort); 4] = [
        |p| p.sr1.berr = true,
        |p| {
            p.sr1.af = true;
            p.sr1.ovr = true;
        },
        |p| {
            p.sr1.arlo = true;
            p.sr1.timeout = true;
            p.sr1.smbalert = true;
        },
        |p| {
            p.sr1.berr = true;
            p.sr1.arlo = true;
            p.sr1.af = true;
            p.sr1.ovr = true;
            p.sr1.pecerr = true;
            p.sr1.timeout = true;
            p.sr1.smbalert = true;
        },
    ];
    for set in subsets {
        let mut s = make_slave();
        set(&mut s.nb.i2c);
        let out = s.listen();
        assert!(out.errors.any());
        let s1 = s.nb.i2c.sr1;
        assert!(
            !s1.berr && !s1.arlo && !s1.af && !s1.ovr && !s1.pecerr && !s1.timeout && !s1.smbalert
        );
    }
}

#[test]
fn cleared_errors_are_surfaced_in_the_outcome() {
    let mut s = make_slave();
    s.nb.i2c.sr1.af = true;
    s.nb.i2c.sr1.ovr = true;
    let out = s.listen();
    assert!(out.errors.af);
    assert!(out.errors.ovr);
    assert!(!out.errors.berr);
    assert!(!out.errors.arlo);
    assert!(!out.errors.pecerr);
    assert!(!out.errors.timeout);
    assert!(!out.errors.smbalert);
}

#[test]
fn error_clear_direct_on_the_peripheral() {
    let mut port = I2cPort::at_reset();
    port.sr1.pecerr = true;
    port.sr1.rxne = true;
    let mut d = I2c { i2c: port, mode: Mode::Standard { frequency: 100_000 }, pclk1: 36_000_000 };
    let found = d.it_status_clear();
    assert!(found.pecerr);
    assert!(!found.berr);
    assert!(!d.i2c.sr1.pecerr);
    assert!(d.i2c.sr1.rxne);
}

#[test]
fn stuck_address_flag_stays_when_hardware_does_not_clear_it() {
    let mut s = make_slave();
    s.nb.i2c.addr_clears_on_status_pair = false;
    s.nb.i2c.sr2.busy = true;
    s.nb.i2c.sr1.addr = true;
    let out = s.listen();
    assert_eq!(out.event, Some(Event::ReceiverAddressMatched));
    assert!(s.nb.i2c.sr1.addr);
}
