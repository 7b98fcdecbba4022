//! The pipeline of one request: fetch the page, parse it, extract, resolve the
//! favicon reference, fetch the favicon, assemble the output.
//!
//! The library never touches the network. Each function here takes the outcome of
//! one fetch and answers with what to do next:
//!
//! 1. the caller fetches the page at the request's URL and calls [`page_fetched`];
//! 2. if that asks for the favicon, the caller requests it and calls
//!    [`favicon_head_received`] with the response head;
//! 3. if that asks for the body, the caller reads it and calls
//!    [`favicon_body_received`].
//!
//! Only the page is essential: a page that cannot be fetched ends the request
//! without an output. Whatever else goes wrong leaves the favicon empty, and is
//! recorded beside the output.

use crate::document::{markup_fits, selected_attr, selected_text, Document};
use crate::error::Error;
use crate::extractor::{
    extract,
    extracted,
    ExtractionResult,
    ExtractionView,
    HREF_ATTR,
    ICON_SELECTOR,
    SHORTCUT_ICON_SELECTOR,
    TITLE_SELECTOR,
};
use crate::fetcher::{
    body_received,
    body_wanted,
    bounded,
    fetch_bounded,
    head_received,
    BodyFetch,
    FetchStep,
    HeadFetch,
    FAVICON_MAX_BYTES,
};
use crate::record::{Output, OutputView, Request, RequestView};
use crate::resolver::{joined_url, parsed_url, resolution_view, resolve, resolved};
use crate::text::text_view;
use vstd::prelude::*;

verus! {

/// The outcome of fetching the page.
#[derive(Clone, Debug, PartialEq, Eq)]
pub enum PageFetch {
    /// No response arrived.
    Failed,
    /// A response arrived.
    Response {
        /// Whether the status indicates success.
        success: bool,
        /// The body as text, or `None` where it is no text.
        text: Option<String>,
    },
}

/// The end of a request that has an output.
#[derive(Clone, Debug, PartialEq, Eq)]
pub struct Finished {
    /// The output.
    pub output: Output,
    /// The failure that left the favicon empty, if one did. It is recorded for
    /// diagnostics and changes nothing in the output.
    pub absorbed: Option<Error>,
}

/// The mathematical value of a [`Finished`].
pub struct FinishedView {
    pub output: OutputView,
    pub absorbed: Option<Error>,
}

impl View for Finished {
    type V = FinishedView;

    open spec fn view(&self) -> FinishedView {
        FinishedView { output: self.output@, absorbed: self.absorbed }
    }
}

/// What follows the fetch of the page.
#[derive(Clone, Debug, PartialEq, Eq)]
pub enum PageStep {
    /// The request ends here, without an output.
    Failed(Error),
    /// Request the favicon at `url`. `partial` is the output but for the favicon.
    FetchFavicon {
        /// The output, its favicon still empty.
        partial: Output,
        /// The absolute URL of the favicon.
        url: String,
    },
    /// The request ends here: there is no favicon to fetch.
    Finished(Finished),
}

/// The mathematical value of a [`PageStep`].
pub enum PageStepView {
    Failed(Error),
    FetchFavicon { partial: OutputView, url: Seq<char> },
    Finished(FinishedView),
}

impl View for PageStep {
    type V = PageStepView;

    open spec fn view(&self) -> PageStepView {
        match self {
            PageStep::Failed(e) => PageStepView::Failed(*e),
            PageStep::FetchFavicon { partial, url } => PageStepView::FetchFavicon {
                partial: partial@,
                url: url@,
            },
            PageStep::Finished(finished) => PageStepView::Finished(finished@),
        }
    }
}

/// What follows the response head of the favicon.
#[derive(Clone, Debug, PartialEq, Eq)]
pub enum FaviconStep {
    /// Read the body, at most `limit` bytes of it.
    ReadBody {
        /// The output, its favicon still empty.
        partial: Output,
        /// The number of bytes after which the read stops.
        limit: u64,
    },
    /// The request ends here, with an empty favicon.
    Finished(Finished),
}

/// The mathematical value of a [`FaviconStep`].
pub enum FaviconStepView {
    ReadBody { partial: OutputView, limit: u64 },
    Finished(FinishedView),
}

impl View for FaviconStep {
    type V = FaviconStepView;

    open spec fn view(&self) -> FaviconStepView {
        match self {
            FaviconStep::ReadBody { partial, limit } => FaviconStepView::ReadBody {
                partial: partial@,
                limit: *limit,
            },
            FaviconStep::Finished(finished) => FaviconStepView::Finished(finished@),
        }
    }
}

/// The markup of the page, where the fetch delivered one: the response is a
/// success, its body is text, and the text is short enough to be parsed.
pub open spec fn page_markup(page: PageFetch) -> Option<Seq<char>> {
    match page {
        PageFetch::Response { success: true, text: Some(markup) } => if markup_fits(markup@) {
            Some(markup@)
        } else {
            None
        },
        _ => None,
    }
}

/// The URL at which the favicon is fetched: the reference resolved against the
/// URL of the page. `None` for a page without a reference.
pub open spec fn favicon_target(href: Option<Seq<char>>, page_url: Seq<char>) -> Option<
    Result<Seq<char>, Error>,
> {
    match href {
        Some(reference) => Some(
            resolved(
                parsed_url(reference),
                parsed_url(page_url),
                joined_url(page_url, reference),
            ),
        ),
        None => None,
    }
}

/// The view of a resolved favicon reference.
pub open spec fn target_view(target: Option<Result<String, Error>>) -> Option<
    Result<Seq<char>, Error>,
> {
    match target {
        Some(outcome) => Some(resolution_view(outcome)),
        None => None,
    }
}

/// The output made of an identifier, what was extracted, and the favicon.
pub open spec fn assembled(id: Seq<char>, found: ExtractionView, favicon: Seq<u8>) -> OutputView {
    OutputView {
        id,
        title: found.title,
        description: found.description,
        og_image: found.og_image,
        favicon,
    }
}

/// An output with another favicon.
pub open spec fn with_favicon(output: OutputView, favicon: Seq<u8>) -> OutputView {
    OutputView { favicon, ..output }
}

/// The end of a request whose favicon was not fetched.
pub open spec fn without_favicon(partial: OutputView, absorbed: Option<Error>) -> FinishedView {
    FinishedView { output: with_favicon(partial, Seq::empty()), absorbed }
}

/// What follows the extraction, given what the favicon reference resolved to.
///
/// The output is assembled from what the rules found. A page without a favicon
/// reference is finished; one whose reference does not resolve is finished too, and
/// the failure recorded; for any other the favicon is requested.
pub open spec fn extraction_step(
    id: Seq<char>,
    found: ExtractionView,
    target: Option<Result<Seq<char>, Error>>,
) -> PageStepView {
    let partial = assembled(id, found, Seq::empty());
    match target {
        Some(Ok(url)) => PageStepView::FetchFavicon { partial, url },
        Some(Err(e)) => PageStepView::Finished(without_favicon(partial, Some(e))),
        None => PageStepView::Finished(without_favicon(partial, None)),
    }
}

/// What follows the fetch of the page, given the markup that it delivered:
/// without markup the request fails, and with it the rules are applied.
pub open spec fn page_step(request: RequestView, markup: Option<Seq<char>>) -> PageStepView {
    match markup {
        None => PageStepView::Failed(Error::PageFetchFailed),
        Some(source) => {
            let found = extracted(source);
            extraction_step(
                request.id,
                found,
                favicon_target(found.favicon_href, request.url),
            )
        },
    }
}

/// What follows the response head of the favicon: the body is read where it is
/// wanted, and the request is finished where not.
pub open spec fn favicon_step(partial: OutputView, head: HeadFetch) -> FaviconStepView {
    if body_wanted(head, FAVICON_MAX_BYTES) {
        FaviconStepView::ReadBody { partial, limit: FAVICON_MAX_BYTES }
    } else {
        FaviconStepView::Finished(without_favicon(partial, Some(Error::FaviconFetchFailed)))
    }
}

/// The end of a request whose favicon body was read: the favicon is what was
/// read, within the bound, and empty where the read broke off.
pub open spec fn body_step(partial: OutputView, body: BodyFetch) -> FinishedView {
    match body {
        BodyFetch::Failed => without_favicon(partial, Some(Error::FaviconFetchFailed)),
        BodyFetch::Complete(bytes) => FinishedView {
            output: with_favicon(partial, bounded(bytes@, FAVICON_MAX_BYTES)),
            absorbed: None,
        },
    }
}

/// Resolves the favicon reference of a page, if it has one.
pub fn resolve_favicon(href: &Option<String>, page_url: &str) -> (target: Option<
    Result<String, Error>,
>)
    ensures
        target_view(target) == favicon_target(text_view(*href), page_url@),
{
    match href {
        Some(reference) => Some(resolve(reference.as_str(), page_url)),
        None => None,
    }
}

/// Builds an output from the identifier of a request, what was extracted from its
/// page, and the bytes of its favicon.
pub fn assemble(id: String, found: ExtractionResult, favicon: Vec<u8>) -> (output: Output)
    ensures
        output@ == assembled(id@, found@, favicon@),
{
    Output {
        id,
        title: found.title,
        description: found.description,
        og_image: found.og_image,
        favicon,
    }
}

/// Finishes a request without a favicon.
fn finish_without_favicon(partial: Output, absorbed: Option<Error>) -> (finished: Finished)
    ensures
        finished@ == without_favicon(partial@, absorbed),
{
    let mut output = partial;
    output.favicon = Vec::new();
    Finished { output, absorbed }
}

/// Decides what follows the extraction, from the identifier of the request, what
/// the rules found, and what the favicon reference resolved to, if there is one.
pub fn after_extraction(
    id: String,
    found: ExtractionResult,
    target: Option<Result<String, Error>>,
) -> (step: PageStep)
    ensures
        step@ == extraction_step(id@, found@, target_view(target)),
        !(step is Failed),
{
    let partial = assemble(id, found, Vec::new());
    match target {
        Some(Ok(url)) => PageStep::FetchFavicon { partial, url },
        Some(Err(e)) => PageStep::Finished(finish_without_favicon(partial, Some(e))),
        None => PageStep::Finished(finish_without_favicon(partial, None)),
    }
}

/// Takes the outcome of fetching the page of a request.
///
/// A fetch that delivered no markup fails the request with
/// [`Error::PageFetchFailed`], and so does one that delivered more than can be
/// parsed. Otherwise the page is parsed and the rules applied
/// to it. Where they find a favicon reference that resolves, the step asks for the
/// favicon. Where they find none, the output is finished, with an empty favicon;
/// so it is where the reference does not resolve, and [`Error::InvalidUrl`] is
/// recorded.
pub fn page_fetched(request: Request, page: PageFetch) -> (step: PageStep)
    ensures
        step@ == page_step(request@, page_markup(page)),
        page_markup(page) is None <==> step is Failed,
{
    match page {
        PageFetch::Response { success: true, text: Some(markup) } => {
            match Document::from_markup(markup.as_str()) {
                Some(document) => {
                    let found = extract(&document);
                    let target = resolve_favicon(&found.favicon_href, request.url.as_str());
                    after_extraction(request.id, found, target)
                },
                None => PageStep::Failed(Error::PageFetchFailed),
            }
        },
        _ => PageStep::Failed(Error::PageFetchFailed),
    }
}

/// Takes the response head of the favicon.
///
/// Asks for the body where the status is a success and the declared length, if
/// any, is at most [`FAVICON_MAX_BYTES`]. Otherwise the output is finished, with an
/// empty favicon, nothing of the body is read, and
/// [`Error::FaviconFetchFailed`] is recorded.
pub fn favicon_head_received(partial: Output, head: HeadFetch) -> (step: FaviconStep)
    ensures
        step@ == favicon_step(partial@, head),
        head matches HeadFetch::Response { content_length: Some(declared), .. } && declared
            > FAVICON_MAX_BYTES ==> step is Finished,
{
    match head_received(head, FAVICON_MAX_BYTES) {
        FetchStep::ReadBody { limit } => FaviconStep::ReadBody { partial, limit },
        FetchStep::Skip => FaviconStep::Finished(
            finish_without_favicon(partial, Some(Error::FaviconFetchFailed)),
        ),
    }
}

/// Takes the outcome of reading the favicon's body, and finishes the output.
///
/// The favicon is what was read, cut to [`FAVICON_MAX_BYTES`]. Where the read
/// broke off it is empty, and [`Error::FaviconFetchFailed`] is recorded.
pub fn favicon_body_received(partial: Output, body: BodyFetch) -> (finished: Finished)
    ensures
        finished@ == body_step(partial@, body),
        finished.output.favicon@.len() <= FAVICON_MAX_BYTES,
{
    match body {
        BodyFetch::Failed => finish_without_favicon(partial, Some(Error::FaviconFetchFailed)),
        complete => {
            let mut output = partial;
            output.favicon = body_received(complete, FAVICON_MAX_BYTES);
            Finished { output, absorbed: None }
        },
    }
}

/// The outcome of a whole request, given what each of its fetches delivered: the
/// markup of the page, if one was, the response head of the favicon and the outcome of
/// reading its body. The two about the favicon count only as far as the steps ask
/// for them.
pub open spec fn run_outcome(
    request: RequestView,
    markup: Option<Seq<char>>,
    head: HeadFetch,
    body: BodyFetch,
) -> Result<FinishedView, Error> {
    match page_step(request, markup) {
        PageStepView::Failed(e) => Err(e),
        PageStepView::Finished(finished) => Ok(finished),
        PageStepView::FetchFavicon { partial, .. } => match favicon_step(partial, head) {
            FaviconStepView::Finished(finished) => Ok(finished),
            FaviconStepView::ReadBody { partial, .. } => Ok(body_step(partial, body)),
        },
    }
}

/// Only the page decides whether there is an output: a page whose markup was
/// delivered always yields one, whatever becomes of the favicon, and any other
/// yields none.
pub proof fn lemma_output_iff_page(
    request: RequestView,
    markup: Option<Seq<char>>,
    head: HeadFetch,
    body: BodyFetch,
)
    ensures
        markup is Some <==> run_outcome(request, markup, head, body) is Ok,
        markup is None ==> run_outcome(request, markup, head, body) == Err::<FinishedView, Error>(
            Error::PageFetchFailed,
        ),
{
}

/// An output has the identifier of its request, and the texts that the rules
/// found in its page. Its favicon is within the bound.
pub proof fn lemma_output_fields(
    request: RequestView,
    markup: Seq<char>,
    head: HeadFetch,
    body: BodyFetch,
)
    ensures
        run_outcome(request, Some(markup), head, body) matches Ok(finished) && {
            &&& finished.output.id == request.id
            &&& finished.output.title == extracted(markup).title
            &&& finished.output.description == extracted(markup).description
            &&& finished.output.og_image == extracted(markup).og_image
            &&& finished.output.favicon.len() <= FAVICON_MAX_BYTES
        },
{
}

/// The favicon of an output is what the bounded fetch of its favicon yields. It is
/// empty where the page has no favicon reference that resolves.
pub proof fn lemma_favicon_is_bounded_fetch(
    request: RequestView,
    markup: Seq<char>,
    head: HeadFetch,
    body: BodyFetch,
)
    ensures
        run_outcome(request, Some(markup), head, body) matches Ok(finished)
            && finished.output.favicon == match favicon_target(
            extracted(markup).favicon_href,
            request.url,
        ) {
            Some(Ok(_)) => fetch_bounded(head, body, FAVICON_MAX_BYTES),
            _ => Seq::empty(),
        },
{
}

/// Of the failures, only the two about the favicon are ever absorbed, and an
/// output with one absorbed has an empty favicon.
pub proof fn lemma_absorbed_failures(
    request: RequestView,
    markup: Seq<char>,
    head: HeadFetch,
    body: BodyFetch,
)
    ensures
        run_outcome(request, Some(markup), head, body) matches Ok(finished) && (
        finished.absorbed matches Some(e) ==> {
            &&& e == Error::InvalidUrl || e == Error::FaviconFetchFailed
            &&& finished.output.favicon == Seq::<u8>::empty()
        }),
{
}

/// The title of a page without a title element is the empty text, never absent.
pub proof fn lemma_missing_title_is_empty(
    request: RequestView,
    markup: Seq<char>,
    head: HeadFetch,
    body: BodyFetch,
)
    requires
        selected_text(markup, TITLE_SELECTOR@) is None,
    ensures
        run_outcome(request, Some(markup), head, body) matches Ok(finished)
            && finished.output.title == Seq::<char>::empty(),
{
}

/// Of a page with both kinds of favicon link, the reference is the `href` of the
/// preferred one, never that of the fallback.
pub proof fn lemma_shortcut_icon_preferred(markup: Seq<char>)
    requires
        selected_attr(markup, SHORTCUT_ICON_SELECTOR@, HREF_ATTR@) is Some,
        selected_attr(markup, ICON_SELECTOR@, HREF_ATTR@) is Some,
    ensures
        extracted(markup).favicon_href == selected_attr(
            markup,
            SHORTCUT_ICON_SELECTOR@,
            HREF_ATTR@,
        )->0,
{
}

/// A favicon that declares more than the bound is not read: the step after its
/// response head asks for nothing more, and the favicon of the output is empty
/// whatever a read of the body would deliver.
pub proof fn lemma_oversized_favicon_skipped(
    request: RequestView,
    markup: Seq<char>,
    success: bool,
    declared: u64,
    body: BodyFetch,
)
    requires
        declared > FAVICON_MAX_BYTES,
    ensures
        forall|partial: OutputView| #[trigger]
            favicon_step(partial, HeadFetch::Response { success, content_length: Some(declared) })
                is Finished,
        run_outcome(
            request,
            Some(markup),
            HeadFetch::Response { success, content_length: Some(declared) },
            body,
        ) matches Ok(finished) && finished.output.favicon == Seq::<u8>::empty(),
{
}

/// A favicon that cannot be fetched leaves the output with an empty favicon and
/// all its other fields: a request that failed, a status other than success, and a
/// read that broke off.
pub proof fn lemma_unfetched_favicon_is_empty(
    request: RequestView,
    markup: Seq<char>,
    head: HeadFetch,
    body: BodyFetch,
)
    requires
        !body_wanted(head, FAVICON_MAX_BYTES) || body is Failed,
    ensures
        run_outcome(request, Some(markup), head, body) matches Ok(finished) && finished.output
            == assembled(request.id, extracted(markup), Seq::empty()),
{
}

} // verus!
