//! A parsed page, and what a CSS selector finds in it.
//!
//! Pages are parsed and queried by the `scraper` crate. Its parser does not fail on
//! malformed markup: it builds what tree it can, and a selection then finds less.
//! It cannot hold a markup of any length, though, so markup over a bound is not
//! handed to it.

use crate::extractor::is_rule_selector;
use crate::text::text_view;
use vstd::prelude::*;

verus! {

/// The longest markup that is parsed, in bytes of UTF-8: 256 MiB.
///
/// The parser keeps each text in a buffer that cannot pass 4 GiB, and doubles a
/// buffer that it grows. A text in the tree can be three times as long as its
/// markup, since a NUL byte is replaced by a character of three bytes. Under this
/// bound no buffer comes near its limit.
pub const MAX_MARKUP_BYTES: usize = 0x1000_0000;

/// Declares `scraper::Html`, the tree of a parsed page, as a type whose inside
/// the verifier does not see.
#[verifier::external_type_specification]
#[verifier::external_body]
pub struct ExHtml(scraper::Html);

/// Whether a markup is short enough to be parsed: its UTF-8 encoding has at most
/// [`MAX_MARKUP_BYTES`] bytes.
pub open spec fn markup_fits(markup: Seq<char>) -> bool {
    vstd::utf8::encode_utf8(markup).len() <= MAX_MARKUP_BYTES
}

/// The text inside the first element of a page that a selector matches, in
/// document order: its descendant text nodes, concatenated. `None` where no element
/// matches. It is asked only for the selectors of the extraction rules.
pub uninterp spec fn selected_text(source: Seq<char>, selector: Seq<char>) -> Option<Seq<char>>;

/// The value of an attribute of the first element of a page that a selector
/// matches, in document order: `None` where no element matches; `Some(None)` where
/// the element lacks the attribute. It is asked only for the selectors of the
/// extraction rules.
pub uninterp spec fn selected_attr(
    source: Seq<char>,
    selector: Seq<char>,
    attr: Seq<char>,
) -> Option<Option<Seq<char>>>;

/// The view of an attribute lookup.
pub open spec fn attr_view(found: Option<Option<String>>) -> Option<Option<Seq<char>>> {
    match found {
        Some(value) => Some(text_view(value)),
        None => None,
    }
}

/// A page, parsed. It lives as long as one request is worked on.
pub struct Document {
    html: scraper::Html,
    source: Ghost<Seq<char>>,
}

/// Calls `scraper::Html::parse_document`, which builds a tree of any markup that
/// its buffers can hold: the `requires` leaves out the markups that are too long
/// for them. The contract claims only that the document is the one of this markup.
#[verifier::external_body]
fn parse_html(markup: &str) -> (document: Document)
    requires
        markup_fits(markup@),
    ensures
        document.source() == markup@,
{
    Document { html: scraper::Html::parse_document(markup), source: Ghost(markup@) }
}

impl Document {
    /// The markup that the document was parsed from.
    pub closed spec fn source(&self) -> Seq<char> {
        self.source@
    }

    /// Parses a page, unless its markup is longer than [`MAX_MARKUP_BYTES`].
    /// Malformed markup does not fail: it parses to what tree can be built of it.
    pub fn from_markup(markup: &str) -> (document: Option<Document>)
        ensures
            document is Some <==> markup_fits(markup@),
            document matches Some(parsed) ==> parsed.source() == markup@,
    {
        if markup.as_bytes().len() <= MAX_MARKUP_BYTES {
            Some(parse_html(markup))
        } else {
            None
        }
    }
}

/// Calls `scraper::Html::select` with the selector that `scraper::Selector::parse`
/// reads from the text, takes the first element and collects
/// `scraper::ElementRef::text`. The `requires` admits the selectors of the
/// extraction rules and no other. The contract claims only that the outcome is a
/// function of the markup and the selector: [`selected_text`] names it.
#[verifier::external_body]
pub(crate) fn first_text(document: &Document, selector: &str) -> (found: Option<String>)
    requires
        is_rule_selector(selector@),
    ensures
        text_view(found) == selected_text(document.source(), selector@),
{
    let selector = scraper::Selector::parse(selector).ok()?;
    document.html.select(&selector).next().map(|element| element.text().collect())
}

/// Calls `scraper::Html::select` with the selector that `scraper::Selector::parse`
/// reads from the text, takes the first element and asks
/// `scraper::node::Element::attr` for the attribute. The `requires` admits the
/// selectors of the extraction rules and no other. The contract claims only that
/// the outcome is a function of the markup, the selector and the attribute's name:
/// [`selected_attr`] names it.
#[verifier::external_body]
pub(crate) fn first_attr(document: &Document, selector: &str, attr: &str) -> (found: Option<
    Option<String>,
>)
    requires
        is_rule_selector(selector@),
    ensures
        attr_view(found) == selected_attr(document.source(), selector@, attr@),
{
    let selector = scraper::Selector::parse(selector).ok()?;
    let element = document.html.select(&selector).next()?;
    Some(element.value().attr(attr).map(String::from))
}

} // verus!
