//! Typed access to named variables in the RAM of a microcontroller reached
//! through a debug probe: the value codec, the on-target variable catalog, the
//! catalog scanner, the RTT command/response protocol and the halt/resume
//! discipline around writes.

pub mod codec;
pub mod catalog;
pub mod scan;
pub mod rtt;
pub mod session;
