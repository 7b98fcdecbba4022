//! Resolution of a reference found in a page against the URL of that page.
//!
//! URLs are parsed and joined by the `url` crate. The library decides which of the
//! two is asked for, and what a failure of either means.

use crate::error::Error;
use crate::text::text_view;
use vstd::prelude::*;

verus! {

/// What a text is when read as a URL on its own.
#[derive(Clone, Debug, PartialEq, Eq)]
pub enum UrlForm {
    /// An absolute URL, held in its normalized form.
    Absolute(String),
    /// A reference without a scheme: it means something only against a base.
    Relative,
    /// Neither: the text has a scheme and is still no URL.
    Malformed,
}

/// The mathematical value of a [`UrlForm`].
pub enum UrlFormView {
    Absolute(Seq<char>),
    Relative,
    Malformed,
}

impl View for UrlForm {
    type V = UrlFormView;

    open spec fn view(&self) -> UrlFormView {
        match self {
            UrlForm::Absolute(text) => UrlFormView::Absolute(text@),
            UrlForm::Relative => UrlFormView::Relative,
            UrlForm::Malformed => UrlFormView::Malformed,
        }
    }
}

/// What `url::Url::parse` makes of a text.
pub uninterp spec fn parsed_url(text: Seq<char>) -> UrlFormView;

/// What `url::Url::join` makes of a reference against a base: the normalized URL,
/// or nothing where the base is no absolute URL or the two do not join.
pub uninterp spec fn joined_url(base: Seq<char>, reference: Seq<char>) -> Option<Seq<char>>;

/// Calls `url::Url::parse`. The contract claims only that the outcome is a function
/// of the text: [`parsed_url`] names it. An URL comes back as its serialization, the
/// error `RelativeUrlWithoutBase` as [`UrlForm::Relative`], any other error as
/// [`UrlForm::Malformed`].
#[verifier::external_body]
fn parse_url(text: &str) -> (form: UrlForm)
    ensures
        form@ == parsed_url(text@),
{
    match url::Url::parse(text) {
        Ok(parsed) => UrlForm::Absolute(String::from(parsed)),
        Err(url::ParseError::RelativeUrlWithoutBase) => UrlForm::Relative,
        Err(_) => UrlForm::Malformed,
    }
}

/// Calls `url::Url::join` on the base, parsed by `url::Url::parse`. The contract
/// claims only that the outcome is a function of the two texts: [`joined_url`] names
/// it. A base that does not parse, and a join that fails, come back as `None`.
#[verifier::external_body]
fn join_url(base: &str, reference: &str) -> (joined: Option<String>)
    ensures
        text_view(joined) == joined_url(base@, reference@),
{
    let base = url::Url::parse(base).ok()?;
    base.join(reference).ok().map(String::from)
}

/// The absolute URL that a reference stands for.
///
/// A reference that is an absolute URL stands for itself, whatever the base. One
/// without a scheme is joined to the base, which must then be an absolute URL. All
/// else is no URL.
pub open spec fn resolved(
    reference: UrlFormView,
    base: UrlFormView,
    joined: Option<Seq<char>>,
) -> Result<Seq<char>, Error> {
    match reference {
        UrlFormView::Absolute(url) => Ok(url),
        UrlFormView::Malformed => Err(Error::InvalidUrl),
        UrlFormView::Relative => match (base, joined) {
            (UrlFormView::Absolute(_), Some(url)) => Ok(url),
            _ => Err(Error::InvalidUrl),
        },
    }
}

/// The view of a resolution's outcome.
pub open spec fn resolution_view(outcome: Result<String, Error>) -> Result<Seq<char>, Error> {
    match outcome {
        Ok(url) => Ok(url@),
        Err(e) => Err(e),
    }
}

/// Decides what a reference resolves to, from what the reference and the base
/// each are as a URL and from what joining them gave.
pub fn resolution(reference: UrlForm, base: UrlForm, joined: Option<String>) -> (outcome: Result<
    String,
    Error,
>)
    ensures
        resolution_view(outcome) == resolved(reference@, base@, text_view(joined)),
{
    match reference {
        UrlForm::Absolute(url) => Ok(url),
        UrlForm::Malformed => Err(Error::InvalidUrl),
        UrlForm::Relative => match base {
            UrlForm::Absolute(_) => match joined {
                Some(url) => Ok(url),
                None => Err(Error::InvalidUrl),
            },
            _ => Err(Error::InvalidUrl),
        },
    }
}

/// Resolves `href`, as found in a page, against `base_url`, the URL of that page.
///
/// Returns `href` itself, normalized, where it is an absolute URL. Otherwise joins
/// it to `base_url`. Fails with [`Error::InvalidUrl`] where `href` has a scheme and
/// is no URL, where `base_url` is needed and is no absolute URL, and where the two
/// do not join.
pub fn resolve(href: &str, base_url: &str) -> (outcome: Result<String, Error>)
    ensures
        resolution_view(outcome) == resolved(
            parsed_url(href@),
            parsed_url(base_url@),
            joined_url(base_url@, href@),
        ),
        parsed_url(href@) is Relative && !(parsed_url(base_url@) is Absolute) ==> outcome == Err::<
            String,
            Error,
        >(Error::InvalidUrl),
{
    let reference = parse_url(href);
    let base = parse_url(base_url);
    let joined = join_url(base_url, href);
    resolution(reference, base, joined)
}

/// A reference without a scheme resolves only against a base that is an absolute
/// URL, and then to what joining the two gives.
pub proof fn lemma_relative_reference_rests_on_base(
    reference: Seq<char>,
    base: Seq<char>,
    url: Seq<char>,
)
    requires
        parsed_url(reference) is Relative,
        resolved(parsed_url(reference), parsed_url(base), joined_url(base, reference)) == Ok::<
            Seq<char>,
            Error,
        >(url),
    ensures
        parsed_url(base) is Absolute,
        joined_url(base, reference) == Some(url),
{
}

} // verus!
