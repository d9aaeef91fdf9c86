use vstd::prelude::*;

use crate::keywords::RawEventType;

verus! {

/// How a single subject descriptor failed to parse.
#[derive(Debug, Clone, Copy, PartialEq, Eq, Structural)]
pub enum SubjectError {
    InvalidUserId,
    InvalidSteamId,
    InvalidTeam,
}

/// A typed-event decoding failure: the event tag together with the offending
/// parameter bytes, kept verbatim.
#[derive(Debug, Clone, PartialEq, Eq)]
pub enum GameEventError {
    /// The payload bytes violated the grammar for this event tag.
    Malformed { ty: RawEventType, params: Vec<u8> },
    /// The payload ended in the middle of a structure.
    Incomplete(RawEventType),
    /// The tag carries no payload decoder.
    Unsupported(RawEventType),
}

/// Errors of the parsing pipeline.
#[derive(Debug, Clone, PartialEq, Eq)]
pub enum Error {
    /// The input violated a documented grammar invariant.
    Malformed,
    /// The input ended mid-structure.
    Incomplete,
    /// The line is below the minimum length; silently ignored.
    Skip,
    /// The subject descriptor could not be parsed.
    Subject(SubjectError),
    /// Typed-event decoding failed.
    MalformedEvent(GameEventError),
}

pub trait ResultExt: Sized {
    fn skip_incomplete(self) -> Self;
}

impl<T> ResultExt for Result<T, Error> {
    /// Downgrades `Incomplete` to the silently ignorable `Skip`.
    fn skip_incomplete(self) -> (r: Self)
        ensures
            r == skip_incomplete_spec(self),
    {
        match self {
            Err(Error::Incomplete) => Err(Error::Skip),
            other => other,
        }
    }
}

pub open spec fn skip_incomplete_spec<T>(r: Result<T, Error>) -> Result<T, Error> {
    match r {
        Err(Error::Incomplete) => Err(Error::Skip),
        other => other,
    }
}

} // verus!
