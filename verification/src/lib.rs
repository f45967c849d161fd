//! Slave-mode driver core for a two-wire serial bus peripheral.
//!
//! The driver programs bus timing and the slave's own address, decodes the
//! peripheral's status registers into discrete protocol events with a fixed
//! precedence, clears sticky error conditions, and runs the byte-transfer and
//! flag-clearing sequences the hardware requires of a bus slave.
//!
//! The peripheral's register interface is modelled by [`registers::I2cPort`]:
//! a plain-value register file that also captures the documented hardware
//! reactions to the status-register clear sequences, so that every register
//! access the driver makes is ordinary verified code.
//!
//! Pin multiplexing, clock-tree queries, peripheral enable/reset plumbing and
//! log emission are left to the surrounding firmware: the library consumes
//! plain clock frequencies and a register file, and hands received bytes and
//! surfaced errors back as plain values.

pub mod controller;
pub mod driver;
pub mod events;
pub mod registers;
pub mod timing;
