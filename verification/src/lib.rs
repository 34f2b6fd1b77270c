//! Calibration protocol client for a bike computer on a serial link.
//!
//! The library holds the frame codec, the interpretation of one transmit
//! attempt and the retry policy. It performs no I/O: the caller owns the
//! serial link and tells the library what happened on it.

pub mod checksum;
pub mod fault;
pub mod frame;
pub mod response;
pub mod retry;
pub mod session;
