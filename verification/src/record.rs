//! The records that enter and leave the pipeline.

use vstd::prelude::*;

verus! {

/// One request: a page to read, under an identifier that is handed through.
#[derive(Clone, Debug, PartialEq, Eq)]
pub struct Request {
    /// An opaque token. It is not examined, and comes out with the result.
    pub id: String,
    /// The URL of the page: the base of every reference found in it.
    pub url: String,
}

/// The mathematical value of a [`Request`].
pub struct RequestView {
    pub id: Seq<char>,
    pub url: Seq<char>,
}

impl View for Request {
    type V = RequestView;

    open spec fn view(&self) -> RequestView {
        RequestView { id: self.id@, url: self.url@ }
    }
}

/// The metadata of one page. Every field is always there: what was not found is
/// empty.
#[derive(Clone, Debug, PartialEq, Eq)]
pub struct Output {
    /// The identifier of the request that this answers.
    pub id: String,
    /// The trimmed title of the page.
    pub title: String,
    /// The trimmed description of the page.
    pub description: String,
    /// The trimmed Open Graph image reference of the page.
    pub og_image: String,
    /// The bytes of the favicon, as fetched.
    pub favicon: Vec<u8>,
}

/// The mathematical value of an [`Output`].
pub struct OutputView {
    pub id: Seq<char>,
    pub title: Seq<char>,
    pub description: Seq<char>,
    pub og_image: Seq<char>,
    pub favicon: Seq<u8>,
}

impl View for Output {
    type V = OutputView;

    open spec fn view(&self) -> OutputView {
        OutputView {
            id: self.id@,
            title: self.title@,
            description: self.description@,
            og_image: self.og_image@,
            favicon: self.favicon@,
        }
    }
}

} // verus!
