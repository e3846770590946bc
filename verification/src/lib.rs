//! Lifecycle engine and init supervisor for ephemeral, host-integrated
//! development containers.
//!
//! The crate decides everything the tool does — which host resources are
//! exposed into a new container, how the container specification is
//! composed, how runtime responses map to records and errors, and how the
//! in-container init process walks its supervision states — as verified
//! functions over plain values.  The surrounding binary performs the
//! container-runtime calls and OS process primitives and feeds their
//! outcomes back in.

pub mod cli;
pub mod config;
pub mod engine;
pub mod error;
pub mod formatters;
pub mod host;
pub mod init;
pub mod text;
pub mod toolbox;

pub use error::RtBoxError;
