//! The three ways in which a stream operation fails.

use vstd::prelude::*;

verus! {

/// A failure reported to the caller. Nothing is retried or masked.
#[derive(Debug, Clone, Copy, PartialEq, Eq, Structural)]
pub enum Error {
    /// A parameter was unusable, found before the server was contacted.
    Configuration,
    /// The server could not be reached or refused the stream.
    Connection,
    /// A transfer failed on a stream that had been opened.
    Io,
}

} // verus!
