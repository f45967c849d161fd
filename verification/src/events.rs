//! Classification of a status snapshot into a protocol event.
//!
//! The status conditions are not mutually exclusive at the bit level, so the
//! classification is an explicit ordered rule list: the first matching rule
//! wins. Classification works on one snapshot of both status registers taken
//! before the call; it never re-reads the registers mid-evaluation.

use vstd::prelude::*;

use crate::registers::{Sr1, Sr2};

verus! {

/// A protocol event pending on the bus. Absence of an event is `None` at the
/// classification result.
#[derive(Clone, Copy, Debug, PartialEq, Eq, Structural)]
pub enum Event {
    /// The master addressed this slave to write data to it.
    ReceiverAddressMatched,
    /// The master addressed this slave to read data from it.
    TransmitterAddressMatched,
    /// The master sent a byte to this slave.
    ByteReceived,
    /// The master wants another byte from this slave.
    ByteTransmitting,
    /// The previous byte has been fully shifted out.
    ByteTransmitted,
    /// The master ended the transfer with a stop condition.
    StopDetected,
}

/// Rule 1: bus busy, own address matched, not transmitting.
pub open spec fn rule_receiver_address(sr1: Sr1, sr2: Sr2) -> bool {
    sr2.busy && sr1.addr && !sr2.tra
}

/// Rule 2: transmitting, bus busy, data register empty, own address matched.
pub open spec fn rule_transmitter_address(sr1: Sr1, sr2: Sr2) -> bool {
    sr2.tra && sr2.busy && sr1.txe && sr1.addr
}

/// Rule 3: bus busy, receive data register not empty.
pub open spec fn rule_byte_received(sr1: Sr1, sr2: Sr2) -> bool {
    sr2.busy && sr1.rxne
}

/// Rule 4: transmitting, bus busy, data register empty, byte transfer
/// finished.
pub open spec fn rule_byte_transmitted(sr1: Sr1, sr2: Sr2) -> bool {
    sr2.tra && sr2.busy && sr1.txe && sr1.btf
}

/// Rule 5: transmitting, bus busy, data register empty.
pub open spec fn rule_byte_transmitting(sr1: Sr1, sr2: Sr2) -> bool {
    sr2.tra && sr2.busy && sr1.txe
}

/// Rule 6: stop condition detected.
pub open spec fn rule_stop_detected(sr1: Sr1, sr2: Sr2) -> bool {
    sr1.stopf
}

/// The fixed-precedence classification of one status snapshot: the first
/// matching rule wins.
pub open spec fn spec_classify(sr1: Sr1, sr2: Sr2) -> Option<Event> {
    if rule_receiver_address(sr1, sr2) {
        Some(Event::ReceiverAddressMatched)
    } else if rule_transmitter_address(sr1, sr2) {
        Some(Event::TransmitterAddressMatched)
    } else if rule_byte_received(sr1, sr2) {
        Some(Event::ByteReceived)
    } else if rule_byte_transmitted(sr1, sr2) {
        Some(Event::ByteTransmitted)
    } else if rule_byte_transmitting(sr1, sr2) {
        Some(Event::ByteTransmitting)
    } else if rule_stop_detected(sr1, sr2) {
        Some(Event::StopDetected)
    } else {
        None
    }
}

/// Classify one snapshot of the two status registers into the pending
/// protocol event, by the fixed precedence of [`spec_classify`].
pub fn classify(sr1: Sr1, sr2: Sr2) -> (r: Option<Event>)
    ensures
        r == spec_classify(sr1, sr2),
{
    if sr2.busy && sr1.addr && !sr2.tra {
        Some(Event::ReceiverAddressMatched)
    } else if sr2.tra && sr2.busy && sr1.txe && sr1.addr {
        Some(Event::TransmitterAddressMatched)
    } else if sr2.busy && sr1.rxne {
        Some(Event::ByteReceived)
    } else if sr2.tra && sr2.busy && sr1.txe && sr1.btf {
        Some(Event::ByteTransmitted)
    } else if sr2.tra && sr2.busy && sr1.txe {
        Some(Event::ByteTransmitting)
    } else if sr1.stopf {
        Some(Event::StopDetected)
    } else {
        None
    }
}

/// Law: classification follows the fixed precedence. For every status
/// snapshot, each event is reported exactly when its own rule holds and no
/// higher-priority rule holds, even when several raw conditions are
/// simultaneously true; and no event is reported exactly when no rule holds.
pub proof fn lemma_classify_precedence(sr1: Sr1, sr2: Sr2)
    ensures
        spec_classify(sr1, sr2) == Some(Event::ReceiverAddressMatched) <==> rule_receiver_address(
            sr1,
            sr2,
        ),
        spec_classify(sr1, sr2) == Some(Event::TransmitterAddressMatched) <==> (
        !rule_receiver_address(sr1, sr2) && rule_transmitter_address(sr1, sr2)),
        spec_classify(sr1, sr2) == Some(Event::ByteReceived) <==> (!rule_receiver_address(sr1, sr2)
            && !rule_transmitter_address(sr1, sr2) && rule_byte_received(sr1, sr2)),
        spec_classify(sr1, sr2) == Some(Event::ByteTransmitted) <==> (!rule_receiver_address(
            sr1,
            sr2,
        ) && !rule_transmitter_address(sr1, sr2) && !rule_byte_received(sr1, sr2)
            && rule_byte_transmitted(sr1, sr2)),
        spec_classify(sr1, sr2) == Some(Event::ByteTransmitting) <==> (!rule_receiver_address(
            sr1,
            sr2,
        ) && !rule_transmitter_address(sr1, sr2) && !rule_byte_received(sr1, sr2)
            && !rule_byte_transmitted(sr1, sr2) && rule_byte_transmitting(sr1, sr2)),
        spec_classify(sr1, sr2) == Some(Event::StopDetected) <==> (!rule_receiver_address(sr1, sr2)
            && !rule_transmitter_address(sr1, sr2) && !rule_byte_received(sr1, sr2)
            && !rule_byte_transmitted(sr1, sr2) && !rule_byte_transmitting(sr1, sr2)
            && rule_stop_detected(sr1, sr2)),
        spec_classify(sr1, sr2) is None <==> (!rule_receiver_address(sr1, sr2)
            && !rule_transmitter_address(sr1, sr2) && !rule_byte_received(sr1, sr2)
            && !rule_byte_transmitted(sr1, sr2) && !rule_byte_transmitting(sr1, sr2)
            && !rule_stop_detected(sr1, sr2)),
{
}

} // verus!
