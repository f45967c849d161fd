use i2c_slave::events::{classify, Event};
use i2c_slave::registers::{Sr1, Sr2};

fn sr1() -> Sr1 {
    Sr1 {
        addr: false,
        btf: false,
        stopf: false,
        rxne: false,
        txe: false,
        berr: false,
        arlo: false,
        af: false,
        ovr: false,
        pecerr: false,
        timeout: false,
        smbalert: false,
    }
}

fn sr2() -> Sr2 {
    Sr2 { busy: false, tra: false }
}

#[test]
fn receiver_address_match_wins_over_everything() {
    let s1 = Sr1 { addr: true, btf: true, stopf: true, rxne: true, txe: true, ..sr1() };
    let s2 = Sr2 { busy: true, tra: false };
    assert_eq!(classify(s1, s2), Some(Event::ReceiverAddressMatched));
}

#[test]
fn transmitter_address_match_when_transmitting() {
    let s1 = Sr1 { addr: true, txe: true, ..sr1() };
    let s2 = Sr2 { busy: true, tra: true };
    assert_eq!(classify(s1, s2), Some(Event::TransmitterAddressMatched));
}

#[test]
fn transmitter_address_match_wins_over_receive_and_transmit() {
    let s1 = Sr1 { addr: true, txe: true, rxne: true, btf: true, stopf: true, ..sr1() };
    let s2 = Sr2 { busy: true, tra: true };
    assert_eq!(classify(s1, s2), Some(Event::TransmitterAddressMatched));
}

#[test]
fn byte_received_plain() {
    let s1 = Sr1 { rxne: true, ..sr1() };
    let s2 = Sr2 { busy: true, tra: false };
    assert_eq!(classify(s1, s2), Some(Event::ByteReceived));
}

#[test]
fn byte_received_wins_over_transmit_rules() {
    let s1 = Sr1 { rxne: true, txe: true, btf: true, stopf: true, ..sr1() };
    let s2 = Sr2 { busy: true, tra: true };
    assert_eq!(classify(s1, s2), Some(Event::ByteReceived));
}

#[test]
fn address_match_while_transmitting_without_empty_register_is_byte_received() {
    let s1 = Sr1 { addr: true, rxne: true, ..sr1() };
    let s2 = Sr2 { busy: true, tra: true };
    assert_eq!(classify(s1, s2), Some(Event::ByteReceived));
}

#[test]
fn byte_transmitted_when_transfer_finished() {
    let s1 = Sr1 { txe: true, btf: true, ..sr1() };
    let s2 = Sr2 { busy: true, tra: true };
    assert_eq!(classify(s1, s2), Some(Event::ByteTransmitted));
}

#[test]
fn byte_transmitted_wins_over_stop() {
    let s1 = Sr1 { txe: true, btf: true, stopf: true, ..sr1() };
    let s2 = Sr2 { busy: true, tra: true };
    assert_eq!(classify(s1, s2), Some(Event::ByteTransmitted));
}

#[test]
fn byte_transmitting_without_transfer_finished() {
    let s1 = Sr1 { txe: true, ..sr1() };
    let s2 = Sr2 { busy: true, tra: true };
    assert_eq!(classify(s1, s2), Some(Event::ByteTransmitting));
}

#[test]
fn stop_detected_plain() {
    let s1 = Sr1 { stopf: true, ..sr1() };
    let s2 = sr2();
    assert_eq!(classify(s1, s2), Some(Event::StopDetected));
}

#[test]
fn stop_detected_when_bus_not_busy() {
    let s1 = Sr1 { stopf: true, rxne: true, addr: true, ..sr1() };
    let s2 = sr2();
    assert_eq!(classify(s1, s2), Some(Event::StopDetected));
}

#[test]
fn nothing_pending_is_none() {
    assert_eq!(classify(sr1(), sr2()), None);
}

#[test]
fn busy_alone_is_none() {
    let s2 = Sr2 { busy: true, tra: false };
    assert_eq!(classify(sr1(), s2), None);
}

#[test]
fn address_match_without_busy_is_none() {
    let s1 = Sr1 { addr: true, txe: true, ..sr1() };
    let s2 = sr2();
    assert_eq!(classify(s1, s2), None);
}

#[test]
fn error_flags_do_not_influence_classification() {
    let s1 = Sr1 {
        rxne: true,
        berr: true,
        arlo: true,
        af: true,
        ovr: true,
        pecerr: true,
        timeout: true,
        smbalert: true,
        ..sr1()
    };
    let s2 = Sr2 { busy: true, tra: false };
    assert_eq!(classify(s1, s2), Some(Event::ByteReceived));
}
