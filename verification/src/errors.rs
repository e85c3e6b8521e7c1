//! The error taxonomy of the navigation engine.

use vstd::prelude::*;

verus! {

/// Everything that can go wrong inside the engine.
///
/// - `IoError`: a directory could not be listed, an entry's metadata could
///   not be read, or an entry's name is not displayable. Fatal to the single
///   operation that triggered it; never partially applied.
/// - `InvalidConfiguration`: an empty tab collection at construction.
/// - `ChannelDisconnected`: the background input listener died; fatal to the
///   main loop.
#[derive(Clone, Copy, Debug, PartialEq, Eq, Structural)]
pub enum NavError {
    IoError,
    InvalidConfiguration,
    ChannelDisconnected,
}

impl NavError {
    /// A short human-readable description of the error.
    pub fn message(&self) -> (r: &'static str)
        ensures
            r@ == self.message_spec(),
    {
        match self {
            NavError::IoError => "failed to read a directory or an entry name",
            NavError::InvalidConfiguration => "a tab collection must hold at least one tab",
            NavError::ChannelDisconnected => "the input listener thread has terminated",
        }
    }

    pub open spec fn message_spec(&self) -> Seq<char> {
        match self {
            NavError::IoError => "failed to read a directory or an entry name"@,
            NavError::InvalidConfiguration => "a tab collection must hold at least one tab"@,
            NavError::ChannelDisconnected => "the input listener thread has terminated"@,
        }
    }
}

} // verus!
