//! Error propagation tracing.
//!
//! This crate provides a result type that keeps a running trace of the code
//! locations through which a failure is forwarded. Each time a failure is
//! handed from one function to its caller through the propagation operation,
//! the location of that forwarding site is appended to a trace carried with
//! the failure, by value. The trace can then be read back at the top of the
//! call chain without any runtime stack capture.

pub mod display;
pub mod error;
pub mod fixture;
pub mod result;
pub mod trace;

pub use error::TracedError;
pub use fixture::Fixture;
pub use result::Result;
pub use trace::CodeLocation;
pub use trace::CodeLocationStack;
pub use trace::Traced;
