//! Compose natural-language prompts interleaved with callable tools, drive an
//! agent session over them, and collect exactly one structured result.
//!
//! The crate holds the deterministic part of that work: the segment model and
//! its spacing rule, the tool registry, the permission policy, the update-loop
//! state machine and the single-assignment result cell. Every function here is
//! verified against its contract; the transport that carries a session lives
//! with the caller.

pub mod error;
pub mod permission;
pub mod prompt;
pub mod registry;
pub mod resolution;
pub mod session;
pub mod think;

pub use error::Error;
pub use think::ThinkBuilder;
