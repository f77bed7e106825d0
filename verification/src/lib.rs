//! Driver core for the A7105 2.4 GHz transceiver and the receive side of the
//! AFHDS 2A remote-control link.
//!
//! The crate performs no I/O of its own. Every chip interaction is described
//! as a [`bus::Transaction`]; bring-up and scanning are state machines that
//! hand out the next [`step::Action`] and take the result of the previous one
//! as a [`step::Event`]. Whoever owns the hardware implements
//! [`backend::Backend`] and lets [`driver`] run the machines, or runs them
//! itself where it wants to suspend instead of block.
//!
//! - [`commands`], [`registers`]: the opcodes and the register map.
//! - [`bus`]: framing of transactions and the bounded wait for an
//!   auto-clearing bit.
//! - [`sequencer`], [`report`]: bring-up and calibration.
//! - [`ready`], [`scanner`]: the wait for the data-ready signal and the scan
//!   of the candidate channels.
//! - [`packet`]: decoding of frames.
//! - [`radio`], [`afhds2`]: the transceiver and the link as their users see
//!   them.
//! - [`backend`], [`driver`]: the boundary to the hardware, and the
//!   machines run against it.
//! - [`loopback`]: a register file that stands in for the chip.

pub mod afhds2;
pub mod backend;
pub mod bus;
pub mod commands;
pub mod driver;
pub mod loopback;
pub mod packet;
pub mod radio;
pub mod ready;
pub mod registers;
pub mod report;
pub mod scanner;
pub mod sequencer;
pub mod step;
