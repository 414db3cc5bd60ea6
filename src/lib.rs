//! A driver core for the RA8875 display controller.
//!
//! The chip exposes its whole state as a bank of 8-bit registers behind a
//! byte-oriented serial channel. This crate decides, for every operation of the
//! driver, which register transactions go over that channel and in which order;
//! the program that owns the channel and the pins performs them.
//!
//! Every operation of `RA8875` is a pure function of the tracked chip state:
//! it returns a `Job`, the list of register steps (`RegOp`) to carry out and
//! the state once they all went through. Reads, read-modify-writes and
//! completion polls are steps too; the decisions inside them (`frame`,
//! `modified`, `still_busy`) and the decoding of what was read
//! (`touch_pending`, `touch_point`) are functions of this crate as well.
pub mod transport;
pub mod cmds;
pub mod regs;
pub mod ops;
pub mod timing;
pub mod driver;
pub mod shapes;
pub mod laws;
pub use driver::{Job, Mode, RA8875};
pub use ops::{Coord, RegOp};
pub use transport::DriverError;
