//! A scripted, deterministic stand-in for a non-blocking byte stream.
//!
//! A test declares the exact sequence of expected interactions — bytes the
//! peer sends, bytes the consumer must write, pauses in between — and the
//! fixture enforces that the consumer's reads and writes match that script
//! byte for byte and in order, while presenting the readiness, would-block
//! and end-of-stream behaviour of a real non-blocking transport.

pub mod capture;
mod ext;
pub mod fixture;
pub mod laws;
pub mod script;

pub use capture::AbsBlock;
pub use capture::BlockDirection;
pub use capture::CaptureBlock;
pub use capture::CaptureError;
pub use fixture::FixtureIo;
pub use script::AbsAction;
pub use script::AbsActive;
pub use script::FixtureView;
pub use script::IoError;
