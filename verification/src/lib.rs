//! A launcher library that restricts a process's filesystem access through a
//! declarative, per-path capability policy enforced by the kernel's Landlock
//! mechanism.
//!
//! The policy pipeline is: a declarative `Profile` (or a degraded single-root
//! request) is compiled into a handled capability mask plus an ordered list of
//! path rules; the mask is narrowed to what the running kernel supports; a
//! kernel ruleset is created, loaded with the rules, and applied once,
//! irrevocably, to the calling process before the target command is launched.

pub mod abi;
pub mod caps;
pub mod config;
pub mod enforce;
pub mod errors;
pub mod kernel;
pub mod launch;
pub mod paths;
pub mod policy;
pub mod preflight;
pub mod text;

pub use caps::{Capability, CapabilitySet};
