//! A host-process lifecycle shim, modeled and verified: resolving a client
//! library and application id, deriving the registry and environment values
//! that impersonate a Steam-launched application, and reconciling the
//! registry back to the true installation, exactly once and idempotently.
//!
//! Everything that touches the operating system (registry, environment,
//! files, library loading) is performed by the surrounding program; this
//! crate decides what to write, in what order, and what each outcome means.

pub mod config;
pub mod environment;
pub mod lifecycle;
pub mod loader;
pub mod paths;
pub mod registry;
pub mod text;
