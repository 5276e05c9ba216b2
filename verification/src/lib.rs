//! Verified core of a velocity-command bridge.
//!
//! The bridge accepts an external velocity command whose linear and angular
//! vectors may each be absent, translates it into an internal command in
//! which both vectors are always present (absent fields become zero), and
//! hands the result to a middleware publisher. A single shared middleware
//! handle is serialized between request handling and a periodic servicing
//! duty; the dispatcher here models that serialization as an owner that
//! serves one event at a time.
//!
//! Scalar components are 64-bit floating-point values; this crate carries
//! each one as its IEEE 754 bit pattern, so that translation is exact,
//! bit for bit. The surrounding process converts between wire floats and
//! bit patterns at the boundary.

pub mod command;
pub mod dispatch;
