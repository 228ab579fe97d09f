//! A differential-testing oracle for IEEE-754 arithmetic.
//!
//! Untrusted byte buffers are decoded into typed arithmetic requests
//! ([`req::FuzzReq`]), each request is evaluated under independent
//! floating-point backends, and the results are compared bit-for-bit
//! against the software arbitrary-precision pivot, with a scoped exception
//! for hardware NaN payloads ([`oracle`]).
//!
//! Everything here works on raw bit patterns: an operand or a result is an
//! unsigned integer exactly as wide as the selected precision, the only
//! representation compared for equality.

pub mod apf;
pub mod bits;
pub mod codec;
pub mod oracle;
pub mod req;
