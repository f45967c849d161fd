//! Plain-value model of the peripheral's register interface.
//!
//! The driver owns one [`I2cPort`] exclusively. Each field mirrors one
//! hardware register (or one relevant bit group of it). Two documented
//! hardware reactions are part of the model, because the driver's clear
//! sequences depend on them:
//!
//! - reading status register one and then status register two clears the
//!   address-match flag;
//! - reading status register one and then writing control register one clears
//!   the stop-detected flag.
//!
//! Whether a reaction actually fires is controlled by a per-port flag, so a
//! port value can also stand for hardware on which a flag stays stuck; the
//! driver must cope with either behaviour.

use vstd::prelude::*;

verus! {

/// Status register one: protocol condition flags and the seven sticky error
/// flags.
#[derive(Clone, Copy, Debug, PartialEq, Eq, Structural)]
pub struct Sr1 {
    /// Own address matched by a bus transaction.
    pub addr: bool,
    /// Byte transfer finished: the data register's contents have been fully
    /// shifted out.
    pub btf: bool,
    /// Stop condition detected on the bus.
    pub stopf: bool,
    /// Receive data register not empty.
    pub rxne: bool,
    /// Transmit data register empty.
    pub txe: bool,
    /// Sticky error: bus error.
    pub berr: bool,
    /// Sticky error: arbitration lost.
    pub arlo: bool,
    /// Sticky error: acknowledge failure.
    pub af: bool,
    /// Sticky error: overrun/underrun.
    pub ovr: bool,
    /// Sticky error: packet error checking failed.
    pub pecerr: bool,
    /// Sticky error: bus timeout.
    pub timeout: bool,
    /// Sticky error: SMBus alert.
    pub smbalert: bool,
}

impl Sr1 {
    /// The same status word with the address-match flag replaced.
    pub open spec fn with_addr(self, addr: bool) -> Sr1 {
        Sr1 { addr: addr, ..self }
    }

    /// The same status word with the stop-detected flag replaced.
    pub open spec fn with_stopf(self, stopf: bool) -> Sr1 {
        Sr1 { stopf: stopf, ..self }
    }

    /// The same status word with all seven sticky error flags cleared.
    pub open spec fn errors_cleared(self) -> Sr1 {
        Sr1 {
            berr: false,
            arlo: false,
            af: false,
            ovr: false,
            pecerr: false,
            timeout: false,
            smbalert: false,
            ..self
        }
    }

    /// At least one of the seven sticky error flags is set.
    pub open spec fn spec_any_error(self) -> bool {
        self.berr || self.arlo || self.af || self.ovr || self.pecerr || self.timeout
            || self.smbalert
    }

    /// None of the seven sticky error flags is set.
    pub open spec fn errors_all_clear(self) -> bool {
        !self.spec_any_error()
    }
}

/// The seven sticky error conditions, read and cleared as a group.
#[derive(Clone, Copy, Debug, PartialEq, Eq, Structural)]
pub struct ErrorFlags {
    /// Bus error.
    pub berr: bool,
    /// Arbitration lost.
    pub arlo: bool,
    /// Acknowledge failure.
    pub af: bool,
    /// Overrun/underrun.
    pub ovr: bool,
    /// Packet error checking failed.
    pub pecerr: bool,
    /// Bus timeout.
    pub timeout: bool,
    /// SMBus alert.
    pub smbalert: bool,
}

/// The seven sticky error flags of a status word, as a group.
pub open spec fn spec_error_flags(s: Sr1) -> ErrorFlags {
    ErrorFlags {
        berr: s.berr,
        arlo: s.arlo,
        af: s.af,
        ovr: s.ovr,
        pecerr: s.pecerr,
        timeout: s.timeout,
        smbalert: s.smbalert,
    }
}

impl ErrorFlags {
    /// At least one of the seven error conditions is set.
    pub open spec fn spec_any(self) -> bool {
        self.berr || self.arlo || self.af || self.ovr || self.pecerr || self.timeout
            || self.smbalert
    }

    /// At least one of the seven error conditions is set.
    pub fn any(&self) -> (r: bool)
        ensures
            r == self.spec_any(),
    {
        self.berr || self.arlo || self.af || self.ovr || self.pecerr || self.timeout
            || self.smbalert
    }
}

/// Status register two: bus transfer state.
#[derive(Clone, Copy, Debug, PartialEq, Eq, Structural)]
pub struct Sr2 {
    /// A transfer is in progress on the bus.
    pub busy: bool,
    /// The peripheral is the transmitter of the current transfer.
    pub tra: bool,
}

/// Control register one: the bits this driver programs.
#[derive(Clone, Copy, Debug, PartialEq, Eq, Structural)]
pub struct Cr1 {
    /// Peripheral enable.
    pub pe: bool,
    /// Acknowledge received bytes.
    pub ack: bool,
    /// Respond to the general-call address.
    pub engc: bool,
}

/// Clock-control register: rate divisor and fast-mode configuration.
#[derive(Clone, Copy, Debug, PartialEq, Eq, Structural)]
pub struct Ccr {
    /// Rate divisor controlling the bus clock period relative to the input
    /// clock.
    pub divisor: u16,
    /// Low-duty profile selected (high/low ratio 16:9 instead of 2:1).
    pub duty: bool,
    /// Fast mode selected.
    pub fast_mode: bool,
}

/// Own-address register.
#[derive(Clone, Copy, Debug, PartialEq, Eq, Structural)]
pub struct Oar1 {
    /// The address bits, stored left-shifted by one per hardware convention.
    pub add: u16,
    /// Ten-bit addressing mode selected.
    pub addmode: bool,
}

/// The register file of one peripheral instance, together with the modelled
/// hardware reactions and access counters for the data register.
pub struct I2cPort {
    /// Control register one.
    pub cr1: Cr1,
    /// Input clock frequency field of control register two, in MHz.
    pub cr2_freq: u8,
    /// Own-address register.
    pub oar1: Oar1,
    /// Data register.
    pub dr: u8,
    /// Status register one.
    pub sr1: Sr1,
    /// Status register two.
    pub sr2: Sr2,
    /// Clock-control register.
    pub ccr: Ccr,
    /// Rise-time register.
    pub trise: u8,
    /// Hardware reaction: reading status register one and then status register
    /// two clears the address-match flag.
    pub addr_clears_on_status_pair: bool,
    /// Hardware reaction: reading status register one and then writing control
    /// register one clears the stop-detected flag.
    pub stopf_clears_on_cr1_write: bool,
    /// The immediately preceding register access was a read of status
    /// register one (arms the two clear reactions).
    pub sr1_read_latch: bool,
    /// How many times the data register has been read.
    pub dr_reads: u64,
    /// How many times the data register has been written.
    pub dr_writes: u64,
}

impl I2cPort {
    /// A port in its power-on state: all registers zero, both hardware clear
    /// reactions behaving as documented.
    pub fn at_reset() -> (r: I2cPort)
        ensures
            r == (I2cPort {
                cr1: Cr1 { pe: false, ack: false, engc: false },
                cr2_freq: 0,
                oar1: Oar1 { add: 0, addmode: false },
                dr: 0,
                sr1: Sr1 {
                    addr: false,
                    btf: false,
                    stopf: false,
                    rxne: false,
                    txe: false,
                    berr: false,
                    arlo: false,
                    af: false,
                    ovr: false,
                    pecerr: false,
                    timeout: false,
                    smbalert: false,
                },
                sr2: Sr2 { busy: false, tra: false },
                ccr: Ccr { divisor: 0, duty: false, fast_mode: false },
                trise: 0,
                addr_clears_on_status_pair: true,
                stopf_clears_on_cr1_write: true,
                sr1_read_latch: false,
                dr_reads: 0,
                dr_writes: 0,
            }),
    {
        I2cPort {
            cr1: Cr1 { pe: false, ack: false, engc: false },
            cr2_freq: 0,
            oar1: Oar1 { add: 0, addmode: false },
            dr: 0,
            sr1: Sr1 {
                addr: false,
                btf: false,
                stopf: false,
                rxne: false,
                txe: false,
                berr: false,
                arlo: false,
                af: false,
                ovr: false,
                pecerr: false,
                timeout: false,
                smbalert: false,
            },
            sr2: Sr2 { busy: false, tra: false },
            ccr: Ccr { divisor: 0, duty: false, fast_mode: false },
            trise: 0,
            addr_clears_on_status_pair: true,
            stopf_clears_on_cr1_write: true,
            sr1_read_latch: false,
            dr_reads: 0,
            dr_writes: 0,
        }
    }

    /// Read status register one. Arms the clear reactions.
    pub fn read_sr1(&mut self) -> (r: Sr1)
        ensures
            r == old(self).sr1,
            *final(self) == (I2cPort { sr1_read_latch: true, ..*old(self) }),
    {
        self.sr1_read_latch = true;
        self.sr1
    }

    /// Read status register two. If status register one was read immediately
    /// before and the port clears address-match on that pair, the
    /// address-match flag goes down.
    pub fn read_sr2(&mut self) -> (r: Sr2)
        ensures
            r == old(self).sr2,
            *final(self) == (I2cPort {
                sr1: old(self).sr1.with_addr(
                    old(self).sr1.addr && !(old(self).sr1_read_latch
                        && old(self).addr_clears_on_status_pair),
                ),
                sr1_read_latch: false,
                ..*old(self)
            }),
    {
        if self.sr1_read_latch && self.addr_clears_on_status_pair {
            self.sr1.addr = false;
        }
        self.sr1_read_latch = false;
        self.sr2
    }

    /// Write control register one whole. If status register one was read
    /// immediately before and the port clears stop-detected on that pair, the
    /// stop-detected flag goes down.
    ///
    /// The acknowledge bit may only be written together with the enable bit:
    /// setting acknowledge on a disabled peripheral is a documented hardware
    /// fault condition.
    pub fn write_cr1(&mut self, v: Cr1)
        requires
            v.ack ==> v.pe,
        ensures
            *final(self) == (I2cPort {
                cr1: v,
                sr1: old(self).sr1.with_stopf(
                    old(self).sr1.stopf && !(old(self).sr1_read_latch
                        && old(self).stopf_clears_on_cr1_write),
                ),
                sr1_read_latch: false,
                ..*old(self)
            }),
    {
        if self.sr1_read_latch && self.stopf_clears_on_cr1_write {
            self.sr1.stopf = false;
        }
        self.sr1_read_latch = false;
        self.cr1 = v;
    }

    /// Write the input-clock frequency field of control register two.
    pub fn write_cr2_freq(&mut self, mhz: u8)
        ensures
            *final(self) == (I2cPort { cr2_freq: mhz, sr1_read_latch: false, ..*old(self) }),
    {
        self.sr1_read_latch = false;
        self.cr2_freq = mhz;
    }

    /// Write the rise-time register. Timing registers may only be programmed
    /// while the peripheral is disabled.
    pub fn write_trise(&mut self, v: u8)
        requires
            !old(self).cr1.pe,
        ensures
            *final(self) == (I2cPort { trise: v, sr1_read_latch: false, ..*old(self) }),
    {
        self.sr1_read_latch = false;
        self.trise = v;
    }

    /// Write the clock-control register. Timing registers may only be
    /// programmed while the peripheral is disabled.
    pub fn write_ccr(&mut self, v: Ccr)
        requires
            !old(self).cr1.pe,
        ensures
            *final(self) == (I2cPort { ccr: v, sr1_read_latch: false, ..*old(self) }),
    {
        self.sr1_read_latch = false;
        self.ccr = v;
    }

    /// Write the own-address register.
    pub fn write_oar1(&mut self, v: Oar1)
        ensures
            *final(self) == (I2cPort { oar1: v, sr1_read_latch: false, ..*old(self) }),
    {
        self.sr1_read_latch = false;
        self.oar1 = v;
    }

    /// Read the data register.
    pub fn read_dr(&mut self) -> (r: u8)
        requires
            old(self).dr_reads < u64::MAX,
        ensures
            r == old(self).dr,
            *final(self) == (I2cPort {
                dr_reads: (old(self).dr_reads + 1) as u64,
                sr1_read_latch: false,
                ..*old(self)
            }),
    {
        self.sr1_read_latch = false;
        self.dr_reads = self.dr_reads + 1;
        self.dr
    }

    /// Write the data register.
    pub fn write_dr(&mut self, data: u8)
        requires
            old(self).dr_writes < u64::MAX,
        ensures
            *final(self) == (I2cPort {
                dr: data,
                dr_writes: (old(self).dr_writes + 1) as u64,
                sr1_read_latch: false,
                ..*old(self)
            }),
    {
        self.sr1_read_latch = false;
        self.dr_writes = self.dr_writes + 1;
        self.dr = data;
    }

    /// Write status register one with all seven sticky error flags cleared
    /// and every other flag kept. Clearing an already-clear error flag is a
    /// no-op on the modelled hardware family.
    pub fn write_sr1_errors_cleared(&mut self)
        ensures
            *final(self) == (I2cPort {
                sr1: old(self).sr1.errors_cleared(),
                sr1_read_latch: false,
                ..*old(self)
            }),
    {
        self.sr1_read_latch = false;
        self.sr1.berr = false;
        self.sr1.arlo = false;
        self.sr1.af = false;
        self.sr1.ovr = false;
        self.sr1.pecerr = false;
        self.sr1.timeout = false;
        self.sr1.smbalert = false;
    }
}

} // verus!
