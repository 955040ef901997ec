//! Capability-based handle abstraction and the word-level error-encoding
//! protocol used at a syscall boundary.
//!
//! The crate has three parts:
//! - [`error`]: the closed set of failure kinds, their fixed negative codes
//!   and descriptions, and the `mux`/`demux` pair that packs a typed result
//!   into, and out of, a single unsigned machine word.
//! - [`rights`]: the capability bitmask attached to a handle, with its
//!   containment check.
//! - [`handle`]: the move-only handle type and the verified halves of its
//!   rights-gated operations; the raw privileged calls themselves live
//!   outside the library.

pub mod error;
pub mod handle;
pub mod rights;

pub use error::Error;
pub use handle::Handle;
pub use rights::HandleRights;
