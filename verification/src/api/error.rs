//! Why a catalogue's search produced no records.

use vstd::prelude::*;

verus! {

/// The kinds of failure, one for each place a search can fail.
#[derive(Debug, Clone, Copy, PartialEq, Eq, Structural)]
pub enum SearchError {
    /// A credential the catalogue needs is empty; nothing was sent.
    Config,
    /// The token exchange was refused, or its answer could not be read.
    Auth,
    /// The request did not reach the catalogue, or no answer came back.
    Transport,
    /// The catalogue answered with this status, which is not a success.
    Request(u16),
    /// The answer's body is not of the shape the catalogue documents.
    Parse,
}

} // verus!
