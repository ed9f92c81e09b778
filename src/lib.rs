//! Screen recording core: frame-rate pacing, pixel conversion and the
//! decisions of the capture/encode session, each with a verified contract.
//! Capture, encoding and signal handling live with the caller, which feeds
//! the outcomes of that work back into the state machines defined here.
pub mod config;
pub mod convert;
pub mod invocation;
pub mod pacing;
pub mod session;
pub mod shutdown;
pub mod sink;
