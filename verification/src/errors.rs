//! Configuration-level errors: these are raised before any enforcement
//! attempt begins, so failing fast on them is always safe.

use vstd::prelude::*;

verus! {

/// An error in the declarative configuration or in the values handed to the
/// policy compiler and launcher. All of these fail before enforcement starts.
#[derive(Clone, Debug, PartialEq, Eq, Structural)]
pub enum ConfigError {
    /// A path is home-relative (`~/...`) but no home directory is known.
    HomeUnresolved,
    /// The configuration document declares a version other than 1.
    UnsupportedVersion(u32),
    /// No command was given, neither on the launch request nor in a profile.
    EmptyCommand,
}

} // verus!
