//! The polling slave controller.
//!
//! One call of [`BlockingI2cSlave::listen`] runs one error-clear, decode and
//! dispatch cycle: sticky errors are acknowledged and surfaced, the pending
//! condition is classified, and the event is served — a received byte goes to
//! the diagnostic sink, a transmit request is answered from the configured
//! response source, a stop condition runs the hardware clear sequences. The
//! controller never blocks: each step is a handful of register accesses.

use vstd::prelude::*;

use crate::driver::{slave_configured, ConfigError, Fault, I2c};
use crate::events::{spec_classify, Event};
use crate::registers::{spec_error_flags, Cr1, ErrorFlags, I2cPort};
use crate::timing::{Clocks, Mode, MAX_FREQUENCY_HZ};

verus! {

/// The response byte sent on a transmitter address match until the caller
/// configures its own source.
pub const DEFAULT_FIRST_RESPONSE: u8 = 0x0A;

/// The response byte sent on each further transmit request until the caller
/// configures its own source.
pub const DEFAULT_NEXT_RESPONSE: u8 = 0x0B;

/// Address-phase tracking state. The field is kept on the controller but is
/// not consulted by today's dispatch logic; its lifecycle is deliberately
/// left open.
#[derive(Clone, Copy, Debug, PartialEq, Eq, Structural)]
pub enum State {
    /// No transfer phase is being tracked.
    Idle,
    /// An address phase of a write transfer.
    AddrWrite,
    /// A data byte phase.
    AddrByte,
}

/// What one poll step observed and did.
#[derive(Clone, Copy, Debug)]
pub struct PollOutcome {
    /// The sticky error flags as found at the start of the step; they were
    /// acknowledged as a group.
    pub errors: ErrorFlags,
    /// The protocol event the step served, if one was pending.
    pub event: Option<Event>,
    /// A fault the step ran into, if any: today only non-convergence of the
    /// stop-condition clear sequence.
    pub fault: Option<Fault>,
}

/// A polling slave controller owning one peripheral instance.
pub struct BlockingI2cSlave {
    /// The peripheral.
    pub nb: I2c,
    /// Start-condition timeout in clock cycles. Stored configuration; not
    /// consulted by the polling path.
    pub start_timeout: u32,
    /// Start retry count. Stored configuration; not consulted by the polling
    /// path.
    pub start_retries: u8,
    /// Address-phase timeout in clock cycles. Stored configuration; not
    /// consulted by the polling path.
    pub addr_timeout: u32,
    /// Data-phase timeout in clock cycles. Stored configuration; not
    /// consulted by the polling path.
    pub data_timeout: u32,
    /// Address-phase tracking state; not consulted by today's dispatch.
    pub state: State,
    /// Injected response source: the byte answering a transmitter address
    /// match.
    pub first_response: u8,
    /// Injected response source: the byte answering each further transmit
    /// request.
    pub next_response: u8,
    /// Diagnostic sink: every received byte, in order.
    pub diagnostic_sink: Vec<u8>,
}

impl BlockingI2cSlave {
    /// Controller well-formedness: the peripheral is enabled and the
    /// configured mode satisfies its invariant.
    pub open spec fn wf(self) -> bool {
        &&& self.nb.i2c.cr1.pe
        &&& self.nb.mode.valid()
    }

    /// Create a slave controller on peripheral one. Fails if the requested
    /// bus frequency exceeds the hardware ceiling; otherwise the peripheral
    /// comes back configured and enabled, and the controller holds the scaled
    /// timeout configuration and the default response source.
    pub fn i2c1_slave(
        i2c: I2cPort,
        mode: Mode,
        clocks: Clocks,
        start_timeout_us: u32,
        start_retries: u8,
        addr_timeout_us: u32,
        data_timeout_us: u32,
    ) -> (r: Result<BlockingI2cSlave, ConfigError>)
        requires
            mode.spec_frequency() >= 1,
            start_timeout_us as int * (clocks.sysclk_hz as int / 1_000_000) <= u32::MAX as int,
            addr_timeout_us as int * (clocks.sysclk_hz as int / 1_000_000) <= u32::MAX as int,
            data_timeout_us as int * (clocks.sysclk_hz as int / 1_000_000) <= u32::MAX as int,
        ensures
            r is Ok <==> mode.spec_frequency() <= MAX_FREQUENCY_HZ,
            r is Err ==> r == Err::<BlockingI2cSlave, ConfigError>(ConfigError::FrequencyTooHigh),
            r matches Ok(s) ==> constructed_slave(
                s,
                i2c,
                mode,
                clocks,
                start_timeout_us,
                start_retries,
                addr_timeout_us,
                data_timeout_us,
            ),
    {
        Self::_i2c(
            i2c,
            mode,
            clocks,
            start_timeout_us,
            start_retries,
            addr_timeout_us,
            data_timeout_us,
        )
    }

    /// Create a slave controller on a configured peripheral instance: check
    /// the frequency ceiling, program the peripheral, and wrap it with the
    /// scaled timeout configuration.
    pub fn _i2c(
        i2c: I2cPort,
        mode: Mode,
        clocks: Clocks,
        start_timeout_us: u32,
        start_retries: u8,
        addr_timeout_us: u32,
        data_timeout_us: u32,
    ) -> (r: Result<BlockingI2cSlave, ConfigError>)
        requires
            mode.spec_frequency() >= 1,
            start_timeout_us as int * (clocks.sysclk_hz as int / 1_000_000) <= u32::MAX as int,
            addr_timeout_us as int * (clocks.sysclk_hz as int / 1_000_000) <= u32::MAX as int,
            data_timeout_us as int * (clocks.sysclk_hz as int / 1_000_000) <= u32::MAX as int,
        ensures
            r is Ok <==> mode.spec_frequency() <= MAX_FREQUENCY_HZ,
            r is Err ==> r == Err::<BlockingI2cSlave, ConfigError>(ConfigError::FrequencyTooHigh),
            r matches Ok(s) ==> constructed_slave(
                s,
                i2c,
                mode,
                clocks,
                start_timeout_us,
                start_retries,
                addr_timeout_us,
                data_timeout_us,
            ),
    {
        match I2c::_i2c_slave(i2c, mode, clocks) {
            Ok(d) => Ok(
                blocking_i2c_slave(
                    d,
                    clocks,
                    start_timeout_us,
                    start_retries,
                    addr_timeout_us,
                    data_timeout_us,
                ),
            ),
            Err(e) => Err(e),
        }
    }

    /// Replace the injected response source: the first byte answers a
    /// transmitter address match, the next byte answers each further transmit
    /// request.
    pub fn set_response_bytes(&mut self, first: u8, next: u8)
        ensures
            *final(self) == (BlockingI2cSlave {
                first_response: first,
                next_response: next,
                ..*old(self)
            }),
    {
        self.first_response = first;
        self.next_response = next;
    }

    /// Run one error-clear, decode and dispatch cycle.
    ///
    /// The sticky error flags are read and acknowledged as a group and
    /// surfaced in the outcome. The pending condition is classified once, by
    /// the fixed precedence, and served: a received byte is read from the
    /// data register and appended to the diagnostic sink; a transmit request
    /// is answered with one data-register write from the configured response
    /// source; a stop condition runs the hardware clear sequences, whose
    /// non-convergence is reported as a fault, never spun on. The call never
    /// blocks, and polling may continue after any outcome.
    pub fn listen(&mut self) -> (r: PollOutcome)
        requires
            old(self).wf(),
            old(self).nb.i2c.dr_reads < u64::MAX,
            old(self).nb.i2c.dr_writes < u64::MAX,
        ensures
            final(self).wf(),
            // the configuration is untouched
            final(self).start_timeout == old(self).start_timeout,
            final(self).start_retries == old(self).start_retries,
            final(self).addr_timeout == old(self).addr_timeout,
            final(self).data_timeout == old(self).data_timeout,
            final(self).state == old(self).state,
            final(self).first_response == old(self).first_response,
            final(self).next_response == old(self).next_response,
            final(self).nb.mode == old(self).nb.mode,
            final(self).nb.pclk1 == old(self).nb.pclk1,
            final(self).nb.i2c.cr2_freq == old(self).nb.i2c.cr2_freq,
            final(self).nb.i2c.trise == old(self).nb.i2c.trise,
            final(self).nb.i2c.ccr == old(self).nb.i2c.ccr,
            final(self).nb.i2c.oar1 == old(self).nb.i2c.oar1,
            final(self).nb.i2c.addr_clears_on_status_pair == old(
                self,
            ).nb.i2c.addr_clears_on_status_pair,
            final(self).nb.i2c.stopf_clears_on_cr1_write == old(
                self,
            ).nb.i2c.stopf_clears_on_cr1_write,
            // what the step observed
            r.errors == spec_error_flags(old(self).nb.i2c.sr1),
            r.event == spec_classify(old(self).nb.i2c.sr1, old(self).nb.i2c.sr2),
            // the seven error flags were acknowledged as a group
            final(self).nb.i2c.sr1.errors_all_clear(),
            // a transmitter address match answers with exactly one
            // data-register write and no read
            r.event == Some(Event::TransmitterAddressMatched) ==> {
                &&& final(self).nb.i2c.dr_writes == old(self).nb.i2c.dr_writes + 1
                &&& final(self).nb.i2c.dr_reads == old(self).nb.i2c.dr_reads
                &&& final(self).nb.i2c.dr == old(self).first_response
                &&& final(self).diagnostic_sink@ == old(self).diagnostic_sink@
            },
            // each further transmit request answers with exactly one
            // data-register write and no read
            (r.event == Some(Event::ByteTransmitted) || r.event == Some(
                Event::ByteTransmitting,
            )) ==> {
                &&& final(self).nb.i2c.dr_writes == old(self).nb.i2c.dr_writes + 1
                &&& final(self).nb.i2c.dr_reads == old(self).nb.i2c.dr_reads
                &&& final(self).nb.i2c.dr == old(self).next_response
                &&& final(self).diagnostic_sink@ == old(self).diagnostic_sink@
            },
            // a received byte is read exactly once and forwarded, exactly
            // that byte, to the diagnostic sink
            r.event == Some(Event::ByteReceived) ==> {
                &&& final(self).nb.i2c.dr_reads == old(self).nb.i2c.dr_reads + 1
                &&& final(self).nb.i2c.dr_writes == old(self).nb.i2c.dr_writes
                &&& final(self).nb.i2c.dr == old(self).nb.i2c.dr
                &&& final(self).diagnostic_sink@ == old(self).diagnostic_sink@.push(
                    old(self).nb.i2c.dr,
                )
            },
            // every other outcome leaves the data register alone
            (r.event == Some(Event::ReceiverAddressMatched) || r.event == Some(
                Event::StopDetected,
            ) || r.event is None) ==> {
                &&& final(self).nb.i2c.dr_reads == old(self).nb.i2c.dr_reads
                &&& final(self).nb.i2c.dr_writes == old(self).nb.i2c.dr_writes
                &&& final(self).nb.i2c.dr == old(self).nb.i2c.dr
                &&& final(self).diagnostic_sink@ == old(self).diagnostic_sink@
            },
            // stop handling: the clear sequence converges or reports a fault
            r.fault is Some <==> (r.event == Some(Event::StopDetected) && !old(
                self,
            ).nb.i2c.stopf_clears_on_cr1_write),
            r.fault is Some ==> r.fault == Some(Fault::StopClearTimeout),
            r.event == Some(Event::StopDetected) ==> final(self).nb.i2c.sr1.stopf == !old(
                self,
            ).nb.i2c.stopf_clears_on_cr1_write,
            r.event != Some(Event::StopDetected) ==> final(self).nb.i2c.sr1.stopf == old(
                self,
            ).nb.i2c.sr1.stopf,
            // the decode snapshot pair consumes the address-match flag where
            // the hardware clears it on that sequence
            final(self).nb.i2c.sr1.addr == (old(self).nb.i2c.sr1.addr && !old(
                self,
            ).nb.i2c.addr_clears_on_status_pair),
            // the remaining bus conditions are untouched
            final(self).nb.i2c.sr1.btf == old(self).nb.i2c.sr1.btf,
            final(self).nb.i2c.sr1.rxne == old(self).nb.i2c.sr1.rxne,
            final(self).nb.i2c.sr1.txe == old(self).nb.i2c.sr1.txe,
            final(self).nb.i2c.sr2 == old(self).nb.i2c.sr2,
            // control register: only the stop path rewrites it, re-asserting
            // acknowledge-enable
            final(self).nb.i2c.cr1 == (if r.event == Some(Event::StopDetected) {
                Cr1 { ack: true, ..old(self).nb.i2c.cr1 }
            } else {
                old(self).nb.i2c.cr1
            }),
    {
        let errors = self.nb.it_status_clear();
        let ev = self.nb.get_last_event();
        let mut fault: Option<Fault> = None;
        match ev {
            Some(Event::ReceiverAddressMatched) => {},
            Some(Event::ByteReceived) => {
                let b = self.nb.receive_data();
                self.diagnostic_sink.push(b);
            },
            Some(Event::TransmitterAddressMatched) => {
                let first = self.first_response;
                self.nb.send_data(first);
            },
            Some(Event::ByteTransmitted) | Some(Event::ByteTransmitting) => {
                let next = self.next_response;
                self.nb.send_data(next);
            },
            Some(Event::StopDetected) => {
                match self.nb.clear_flags() {
                    Ok(()) => {},
                    Err(f) => {
                        fault = Some(f);
                    },
                }
            },
            None => {},
        }
        PollOutcome { errors, event: ev, fault }
    }
}

/// What construction leaves behind: the peripheral configured from the mode
/// and clocks, the timeouts scaled from microseconds to cycles of the system
/// clock, the tracking state idle, the default response source, and an empty
/// diagnostic sink.
pub open spec fn constructed_slave(
    s: BlockingI2cSlave,
    i2c: I2cPort,
    mode: Mode,
    clocks: Clocks,
    start_timeout_us: u32,
    start_retries: u8,
    addr_timeout_us: u32,
    data_timeout_us: u32,
) -> bool {
    &&& s.wf()
    &&& s.nb.mode == mode
    &&& s.nb.pclk1 == clocks.pclk1_hz
    &&& slave_configured(i2c, s.nb.i2c, mode, clocks.pclk1_hz)
    &&& s.start_timeout == start_timeout_us as int * (clocks.sysclk_hz as int / 1_000_000)
    &&& s.start_retries == start_retries
    &&& s.addr_timeout == addr_timeout_us as int * (clocks.sysclk_hz as int / 1_000_000)
    &&& s.data_timeout == data_timeout_us as int * (clocks.sysclk_hz as int / 1_000_000)
    &&& s.state == State::Idle
    &&& s.first_response == DEFAULT_FIRST_RESPONSE
    &&& s.next_response == DEFAULT_NEXT_RESPONSE
    &&& s.diagnostic_sink@ == Seq::<u8>::empty()
}

/// Wrap a configured peripheral into a polling controller, scaling the
/// microsecond timeouts to cycles of the system clock.
pub fn blocking_i2c_slave(
    i2c: I2c,
    clocks: Clocks,
    start_timeout_us: u32,
    start_retries: u8,
    addr_timeout_us: u32,
    data_timeout_us: u32,
) -> (r: BlockingI2cSlave)
    requires
        start_timeout_us as int * (clocks.sysclk_hz as int / 1_000_000) <= u32::MAX as int,
        addr_timeout_us as int * (clocks.sysclk_hz as int / 1_000_000) <= u32::MAX as int,
        data_timeout_us as int * (clocks.sysclk_hz as int / 1_000_000) <= u32::MAX as int,
    ensures
        r.nb == i2c,
        r.start_timeout == start_timeout_us as int * (clocks.sysclk_hz as int / 1_000_000),
        r.start_retries == start_retries,
        r.addr_timeout == addr_timeout_us as int * (clocks.sysclk_hz as int / 1_000_000),
        r.data_timeout == data_timeout_us as int * (clocks.sysclk_hz as int / 1_000_000),
        r.state == State::Idle,
        r.first_response == DEFAULT_FIRST_RESPONSE,
        r.next_response == DEFAULT_NEXT_RESPONSE,
        r.diagnostic_sink@ == Seq::<u8>::empty(),
{
    let sysclk_mhz: u32 = clocks.sysclk_hz / 1_000_000;
    BlockingI2cSlave {
        nb: i2c,
        start_timeout: start_timeout_us * sysclk_mhz,
        start_retries,
        addr_timeout: addr_timeout_us * sysclk_mhz,
        data_timeout: data_timeout_us * sysclk_mhz,
        state: State::Idle,
        first_response: DEFAULT_FIRST_RESPONSE,
        next_response: DEFAULT_NEXT_RESPONSE,
        diagnostic_sink: Vec::new(),
    }
}

} // verus!
