//! The ways in which loading a configuration file can fail.

use vstd::prelude::*;

verus! {

/// Why a timestamp check or a load did not produce a value.
#[derive(Clone, Copy, Debug, PartialEq, Eq, Structural)]
pub enum ConfigError {
    /// The file is missing or unreadable, or its metadata is unavailable.
    Io,
    /// The contents are malformed or do not have the shape of the target type.
    Decode,
    /// The modification time lies before the reference epoch.
    Clock,
}

} // verus!
