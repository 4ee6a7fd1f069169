//! A narrow, resource-managed bridge between a host process and an isolated
//! sandbox that runs untrusted guest code.
//!
//! The bridge is organised as:
//! - [`status`]: the fixed integer codes reported across the call boundary;
//! - [`config`]: the compiled-in resource envelope applied to every build;
//! - [`builder`]: the sandbox builder, its host-function registry, and the
//!   validated build plan it produces;
//! - [`trampoline`]: marshaling of one host-callback invocation;
//! - [`run`]: the call protocol for one unit of guest work;
//! - [`bridge`]: the caller-facing handle registry that validates every
//!   handle before it is used and rejects double release.
//!
//! The engine that actually virtualises and executes guest code is an
//! outside collaborator; this crate decides what is handed to it and how
//! every reply is reported back, and an unverified shell performs the
//! engine calls themselves.

pub mod bridge;
pub mod builder;
pub mod config;
pub mod run;
pub mod status;
pub mod trampoline;
