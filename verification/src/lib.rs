//! Core of a remote-desktop streaming stack: frame capture bookkeeping,
//! encoder sessions, the wire protocol and transport state, and the adaptive
//! quality controller. Every function carries a contract that Verus proves.
//!
//! The library does no I/O and reads no clock. Its callers ask devices,
//! libraries and sockets, and hand what they answered to the library, which
//! decides; times are handed in as numbers. Round-trip times and jitter are
//! in microseconds, loss rates in packets per million, bitrates in bits per
//! second; other times say their unit in their name.
//!
//! Byte buffers are those of the `bytes` crate. What is assumed of them is
//! stated in `transport::wire`, and what is assumed of `String::push_str`
//! in `text`; these assumptions are proved nowhere, everything else is.

pub mod arith;
pub mod capture;
pub mod encoder;
pub mod input;
pub mod pipeline;
pub mod platform;
pub mod quality;
pub mod text;
pub mod transport;
