//! Telling HTTP connections from opaque ones.

use vstd::prelude::*;

verus! {

/// The version of HTTP that a connection speaks.
#[derive(Clone, Copy, Debug, PartialEq, Eq, Hash, Structural)]
pub enum Version {
    Http1,
    H2,
}

/// Marks a connection that is not looked into.
#[derive(Clone, Copy, Debug, PartialEq, Eq, Structural)]
pub struct Skip;

/// What came of looking at the start of a connection.
#[derive(Clone, Copy, Debug)]
pub enum Detected {
    /// The first bytes are those of a protocol, or of none that is known.
    Protocol(Option<Version>),
    /// No bytes came in time.
    TimedOut,
}

/// How a connection is served.
#[derive(Clone, Copy, Debug, PartialEq, Eq, Structural)]
pub enum Serve {
    Http(Version),
    Opaque,
}

/// Whether to look at the start of a connection.
pub fn should_detect(skip: Option<Skip>) -> (b: bool)
    ensures
        b == (skip is None),
{
    match skip {
        Some(Skip) => false,
        None => true,
    }
}

/// Serves a connection as HTTP if that is what was found. A connection that says nothing in time is
/// opaque.
pub fn after_detection(detected: Detected) -> (s: Serve)
    ensures
        s == match detected {
            Detected::Protocol(Some(version)) => Serve::Http(version),
            _ => Serve::Opaque,
        },
{
    match detected {
        Detected::Protocol(Some(version)) => Serve::Http(version),
        _ => Serve::Opaque,
    }
}

} // verus!
