//! The failures that a request can end in.

use vstd::prelude::*;

verus! {

/// Why a step could not produce its value.
///
/// Only [`Error::MalformedInput`] and [`Error::PageFetchFailed`] end a request.
/// The other two leave the favicon of its output empty.
#[derive(Clone, Copy, Debug, PartialEq, Eq, Structural)]
pub enum Error {
    /// The input line is not an object with the text members that a record needs.
    MalformedInput,
    /// The page could not be fetched: a network failure, a status other than
    /// success, a body that is not text, or one too long to be parsed.
    PageFetchFailed,
    /// A reference could not be resolved to an absolute URL.
    InvalidUrl,
    /// The favicon was not fetched: a network failure, a status other than
    /// success, a declared length over the bound, or a read that broke off.
    FaviconFetchFailed,
}

impl Error {
    /// A short description for diagnostics.
    pub fn message(&self) -> (text: String)
        ensures
            text@ == match *self {
                Error::MalformedInput => "malformed input record"@,
                Error::PageFetchFailed => "page fetch failed"@,
                Error::InvalidUrl => "invalid URL"@,
                Error::FaviconFetchFailed => "favicon fetch failed"@,
            },
    {
        match self {
            Error::MalformedInput => "malformed input record".to_owned(),
            Error::PageFetchFailed => "page fetch failed".to_owned(),
            Error::InvalidUrl => "invalid URL".to_owned(),
            Error::FaviconFetchFailed => "favicon fetch failed".to_owned(),
        }
    }
}

} // verus!
