//! The peripheral driver: timing and address configuration, event decode,
//! error-flag clearing, byte transfer, and the hardware clear sequences.

use vstd::prelude::*;

use crate::events::{classify, spec_classify, Event};
use crate::registers::{spec_error_flags, Cr1, ErrorFlags, I2cPort, Oar1};
use crate::timing::{
    compute_ccr, compute_trise, spec_ccr_value, spec_trise_value, Clocks, Mode, MAX_FREQUENCY_HZ,
};

verus! {

/// The slave's own bus address programmed at initialization.
pub const DEFAULT_OWN_ADDRESS: u8 = 0x20;

/// How many acknowledge rewrites the stop-condition clear sequence attempts
/// before it reports non-convergence. Under normal operation the flag clears
/// at the first rewrite.
pub const STOP_CLEAR_BOUND: u8 = 8;

/// A configuration error detected at construction.
#[derive(Clone, Copy, Debug, PartialEq, Eq, Structural)]
pub enum ConfigError {
    /// The requested bus frequency exceeds the hardware ceiling.
    FrequencyTooHigh,
}

/// A runtime fault detected while driving the bus.
#[derive(Clone, Copy, Debug, PartialEq, Eq, Structural)]
pub enum Fault {
    /// The stop-detected flag did not clear within the bounded clear
    /// sequence.
    StopClearTimeout,
}

/// The peripheral with its configuration: the register file it exclusively
/// owns, the requested bus mode, and the peripheral input clock in Hz.
pub struct I2c {
    /// The register file of the peripheral instance.
    pub i2c: I2cPort,
    /// The requested bus mode.
    pub mode: Mode,
    /// The peripheral input clock frequency in Hz.
    pub pclk1: u32,
}

/// What slave initialization does to the register file: the timing registers
/// hold the values derived from the mode and input clock, the own address is
/// programmed, and the peripheral ends enabled with acknowledgment and
/// general-call addressing on. The bus status is untouched: initialization
/// never reads a status register, so no clear reaction fires.
pub open spec fn slave_configured(pre: I2cPort, post: I2cPort, m: Mode, pclk1: u32) -> bool {
    &&& post.cr2_freq == (pclk1 as int / 1_000_000) % 256
    &&& post.trise == spec_trise_value(m, pclk1)
    &&& post.ccr == spec_ccr_value(m, pclk1)
    &&& post.oar1 == (Oar1 { add: (2 * DEFAULT_OWN_ADDRESS as u16) as u16, addmode: false })
    &&& post.cr1 == (Cr1 { pe: true, ack: true, engc: true })
    &&& post.sr1 == pre.sr1
    &&& post.sr2 == pre.sr2
    &&& post.dr == pre.dr
    &&& post.dr_reads == pre.dr_reads
    &&& post.dr_writes == pre.dr_writes
    &&& post.addr_clears_on_status_pair == pre.addr_clears_on_status_pair
    &&& post.stopf_clears_on_cr1_write == pre.stopf_clears_on_cr1_write
    &&& !post.sr1_read_latch
}

/// The stop-condition acknowledgment loop: while the stop-detected flag
/// remains set, read status register one and rewrite control register one
/// re-asserting the acknowledge-enable bit, at most [`STOP_CLEAR_BOUND`]
/// times. Returns whether the flag was still set when the bound ran out.
fn stop_clear_sequence(port: &mut I2cPort) -> (stuck: bool)
    requires
        old(port).cr1.pe,
    ensures
        stuck == (old(port).sr1.stopf && !old(port).stopf_clears_on_cr1_write),
        *final(port) == (I2cPort {
            sr1: old(port).sr1.with_stopf(
                old(port).sr1.stopf && !old(port).stopf_clears_on_cr1_write,
            ),
            cr1: (if old(port).sr1.stopf {
                Cr1 { ack: true, ..old(port).cr1 }
            } else {
                old(port).cr1
            }),
            sr1_read_latch: true,
            ..*old(port)
        }),
{
    let mut attempts: u8 = 0;
    let mut stuck: bool = false;
    loop
        invariant_except_break
            !stuck,
        invariant
            old(port).cr1.pe,
            attempts <= STOP_CLEAR_BOUND,
            port.cr2_freq == old(port).cr2_freq,
            port.oar1 == old(port).oar1,
            port.dr == old(port).dr,
            port.sr2 == old(port).sr2,
            port.ccr == old(port).ccr,
            port.trise == old(port).trise,
            port.addr_clears_on_status_pair == old(port).addr_clears_on_status_pair,
            port.stopf_clears_on_cr1_write == old(port).stopf_clears_on_cr1_write,
            port.dr_reads == old(port).dr_reads,
            port.dr_writes == old(port).dr_writes,
            port.sr1 == old(port).sr1.with_stopf(port.sr1.stopf),
            port.cr1 == (if attempts > 0 {
                Cr1 { ack: true, ..old(port).cr1 }
            } else {
                old(port).cr1
            }),
            attempts == 0 ==> port.sr1.stopf == old(port).sr1.stopf,
            attempts > 0 ==> old(port).sr1.stopf,
            attempts > 0 ==> port.sr1.stopf == !old(port).stopf_clears_on_cr1_write,
            attempts > 1 ==> !old(port).stopf_clears_on_cr1_write,
        ensures
            stuck == (old(port).sr1.stopf && !old(port).stopf_clears_on_cr1_write),
            port.sr1_read_latch,
            port.sr1 == old(port).sr1.with_stopf(
                old(port).sr1.stopf && !old(port).stopf_clears_on_cr1_write,
            ),
            port.cr1 == (if old(port).sr1.stopf {
                Cr1 { ack: true, ..old(port).cr1 }
            } else {
                old(port).cr1
            }),
            port.cr2_freq == old(port).cr2_freq,
            port.oar1 == old(port).oar1,
            port.dr == old(port).dr,
            port.sr2 == old(port).sr2,
            port.ccr == old(port).ccr,
            port.trise == old(port).trise,
            port.addr_clears_on_status_pair == old(port).addr_clears_on_status_pair,
            port.stopf_clears_on_cr1_write == old(port).stopf_clears_on_cr1_write,
            port.dr_reads == old(port).dr_reads,
            port.dr_writes == old(port).dr_writes,
        decreases STOP_CLEAR_BOUND - attempts,
    {
        let s1 = port.read_sr1();
        if !s1.stopf {
            break;
        }
        if attempts == STOP_CLEAR_BOUND {
            stuck = true;
            break;
        }
        let _again = port.read_sr1();
        let mut v = port.cr1;
        v.ack = true;
        port.write_cr1(v);
        attempts = attempts + 1;
    }
    stuck
}

impl I2c {
    /// Configure the peripheral for slave operation. Fails if the requested
    /// bus frequency exceeds the hardware ceiling; otherwise programs the
    /// timing registers and the own address and enables the peripheral.
    pub fn _i2c_slave(i2c: I2cPort, mode: Mode, clocks: Clocks) -> (r: Result<I2c, ConfigError>)
        requires
            mode.spec_frequency() >= 1,
        ensures
            r is Ok <==> mode.spec_frequency() <= MAX_FREQUENCY_HZ,
            r is Err ==> r == Err::<I2c, ConfigError>(ConfigError::FrequencyTooHigh),
            r matches Ok(d) ==> d.mode == mode && d.pclk1 == clocks.pclk1_hz && slave_configured(
                i2c,
                d.i2c,
                mode,
                clocks.pclk1_hz,
            ),
    {
        if mode.get_frequency() > MAX_FREQUENCY_HZ {
            return Err(ConfigError::FrequencyTooHigh);
        }
        let mut d = I2c { i2c, mode, pclk1: clocks.pclk1_hz };
        d.init_slave();
        Ok(d)
    }

    /// Initialize the peripheral: program the input-clock field, the
    /// rise-time and rate-divisor registers, and the own address, then enable
    /// the peripheral, and only then switch on byte acknowledgment and
    /// general-call addressing. The enable bit is written after the timing
    /// registers, and the acknowledge bit only after the enable bit; the
    /// reverse order is a documented hardware fault condition.
    pub fn init_slave(&mut self)
        requires
            old(self).mode.valid(),
        ensures
            final(self).mode == old(self).mode,
            final(self).pclk1 == old(self).pclk1,
            slave_configured(old(self).i2c, final(self).i2c, old(self).mode, old(self).pclk1),
    {
        let mode = self.mode;
        let pclk1 = self.pclk1;
        let pclk1_mhz: u32 = pclk1 / 1_000_000;

        self.i2c.write_cr2_freq((pclk1_mhz % 256) as u8);
        self.i2c.write_cr1(Cr1 { pe: false, ack: false, engc: false });

        let trise = compute_trise(&mode, pclk1);
        self.i2c.write_trise(trise);
        let ccr = compute_ccr(&mode, pclk1);
        self.i2c.write_ccr(ccr);

        self.own_7_bit_address_setup(DEFAULT_OWN_ADDRESS);

        self.i2c.write_cr1(Cr1 { pe: true, ack: false, engc: false });
        self.i2c.write_cr1(Cr1 { pe: true, ack: true, engc: true });
    }

    /// Program the slave's own 7-bit address, stored left-shifted by one bit
    /// per hardware convention, with the extended-addressing mode bit
    /// cleared. No range check is performed; invalid addresses are the
    /// caller's responsibility.
    pub fn own_7_bit_address_setup(&mut self, address: u8)
        ensures
            final(self).mode == old(self).mode,
            final(self).pclk1 == old(self).pclk1,
            final(self).i2c == (I2cPort {
                oar1: (Oar1 { add: (2 * address as u16) as u16, addmode: false }),
                sr1_read_latch: false,
                ..old(self).i2c
            }),
    {
        let add: u16 = (address as u16) * 2;
        self.i2c.write_oar1(Oar1 { add, addmode: false });
    }

    /// Read both status registers once and classify the pending condition
    /// into a protocol event by the fixed precedence, or `None` when nothing
    /// is pending. The snapshot is taken once; reading the pair consumes the
    /// address-match flag where the hardware clears it on that sequence.
    pub fn get_last_event(&mut self) -> (r: Option<Event>)
        ensures
            r == spec_classify(old(self).i2c.sr1, old(self).i2c.sr2),
            final(self).mode == old(self).mode,
            final(self).pclk1 == old(self).pclk1,
            final(self).i2c == (I2cPort {
                sr1: old(self).i2c.sr1.with_addr(
                    old(self).i2c.sr1.addr && !old(self).i2c.addr_clears_on_status_pair,
                ),
                sr1_read_latch: false,
                ..old(self).i2c
            }),
    {
        let sr1 = self.i2c.read_sr1();
        let sr2 = self.i2c.read_sr2();
        classify(sr1, sr2)
    }

    /// Run the two hardware clear sequences. If the address-match flag is
    /// set, read status register one and then status register two, in that
    /// order. Then, while the stop-detected flag remains set, read status
    /// register one and rewrite control register one re-asserting the
    /// acknowledge-enable bit, at most [`STOP_CLEAR_BOUND`] times; a flag
    /// still set after that is reported as a fault instead of spinning
    /// forever.
    pub fn clear_flags(&mut self) -> (r: Result<(), Fault>)
        requires
            old(self).i2c.cr1.pe,
        ensures
            final(self).mode == old(self).mode,
            final(self).pclk1 == old(self).pclk1,
            r is Ok <==> !(old(self).i2c.sr1.stopf && !old(self).i2c.stopf_clears_on_cr1_write),
            r is Err ==> r == Err::<(), Fault>(Fault::StopClearTimeout),
            final(self).i2c == (I2cPort {
                sr1: old(self).i2c.sr1.with_addr(
                    old(self).i2c.sr1.addr && !old(self).i2c.addr_clears_on_status_pair,
                ).with_stopf(
                    old(self).i2c.sr1.stopf && !old(self).i2c.stopf_clears_on_cr1_write,
                ),
                cr1: (if old(self).i2c.sr1.stopf {
                    Cr1 { ack: true, ..old(self).i2c.cr1 }
                } else {
                    old(self).i2c.cr1
                }),
                sr1_read_latch: true,
                ..old(self).i2c
            }),
    {
        let s = self.i2c.read_sr1();
        if s.addr {
            let _sr1 = self.i2c.read_sr1();
            let _sr2 = self.i2c.read_sr2();
        }

        if stop_clear_sequence(&mut self.i2c) {
            Err(Fault::StopClearTimeout)
        } else {
            Ok(())
        }
    }

    /// Detect and acknowledge the sticky error conditions: read status
    /// register one and, if any of the seven error flags is set, clear all
    /// seven simultaneously in one write. Returns the flags as they were
    /// found, so the caller can surface them. Clearing an already-clear flag
    /// is a no-op on the modelled hardware family.
    pub fn it_status_clear(&mut self) -> (r: ErrorFlags)
        ensures
            r == spec_error_flags(old(self).i2c.sr1),
            final(self).mode == old(self).mode,
            final(self).pclk1 == old(self).pclk1,
            final(self).i2c == (I2cPort {
                sr1: old(self).i2c.sr1.errors_cleared(),
                sr1_read_latch: !old(self).i2c.sr1.spec_any_error(),
                ..old(self).i2c
            }),
            final(self).i2c.sr1.errors_all_clear(),
    {
        let s = self.i2c.read_sr1();
        let found = ErrorFlags {
            berr: s.berr,
            arlo: s.arlo,
            af: s.af,
            ovr: s.ovr,
            pecerr: s.pecerr,
            timeout: s.timeout,
            smbalert: s.smbalert,
        };
        if found.any() {
            self.i2c.write_sr1_errors_cleared();
        }
        found
    }

    /// Write one byte to the data register. No blocking and no readiness
    /// check: the caller must only send when the decoder reported a
    /// transmit-ready event.
    pub fn send_data(&mut self, data: u8)
        requires
            old(self).i2c.dr_writes < u64::MAX,
        ensures
            final(self).mode == old(self).mode,
            final(self).pclk1 == old(self).pclk1,
            final(self).i2c == (I2cPort {
                dr: data,
                dr_writes: (old(self).i2c.dr_writes + 1) as u64,
                sr1_read_latch: false,
                ..old(self).i2c
            }),
    {
        self.i2c.write_dr(data);
    }

    /// Read one byte from the data register. No readiness check: the caller
    /// must only receive when the decoder reported a receive event.
    pub fn receive_data(&mut self) -> (r: u8)
        requires
            old(self).i2c.dr_reads < u64::MAX,
        ensures
            r == old(self).i2c.dr,
            final(self).mode == old(self).mode,
            final(self).pclk1 == old(self).pclk1,
            final(self).i2c == (I2cPort {
                dr_reads: (old(self).i2c.dr_reads + 1) as u64,
                sr1_read_latch: false,
                ..old(self).i2c
            }),
    {
        self.i2c.read_dr()
    }
}

} // verus!
