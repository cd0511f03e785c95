//! The decisions behind a desktop shell's start-up: what an environment lookup
//! hands to the frontend, where the running executable lives, and how the
//! bundled database server is chosen and invoked to create its first
//! administrator. Reading the environment, asking the operating system for the
//! executable and spawning the server are the caller's work; every function
//! here goes from plain values to plain values.

pub mod env_lookup;
pub mod exe_path;
pub mod sidecar;
