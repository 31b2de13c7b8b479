//! The ownership-splitting layer of a duplex connection in a completion-based I/O
//! runtime: borrowed and owned read/write halves, their recombination, and the
//! buffer-ownership calling convention of the operations that they forward.
//!
//! The operations themselves are carried out by an outside completion subsystem;
//! here each operation takes what that subsystem reported and returns what the
//! caller gets back, together with the buffer that travelled with it.

pub mod addr;
pub mod buf;
pub mod stream;
pub mod split;
