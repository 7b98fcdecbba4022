//! The extraction rules: what of a page becomes its metadata.
//!
//! Each rule looks at the first element that its selector matches and at nothing
//! else. The rules do not depend on each other.

use crate::document::{
    attr_view,
    first_attr,
    first_text,
    selected_attr,
    selected_text,
    Document,
};
use crate::text::{text_view, trim, trimmed};
use vstd::prelude::*;

verus! {

/// Selects the title of a page.
pub const TITLE_SELECTOR: &'static str = "title";

/// Selects the description of a page.
pub const DESCRIPTION_SELECTOR: &'static str = r#"meta[name="description"]"#;

/// Selects the Open Graph image of a page.
pub const OG_IMAGE_SELECTOR: &'static str = r#"meta[property="og:image"]"#;

/// Selects the favicon link that is preferred.
pub const SHORTCUT_ICON_SELECTOR: &'static str = r#"link[rel="shortcut icon"]"#;

/// Selects the favicon link that is the fallback.
pub const ICON_SELECTOR: &'static str = r#"link[rel="icon"]"#;

/// The attribute that holds the value of a `<meta>` element.
pub const CONTENT_ATTR: &'static str = "content";

/// The attribute that holds the target of a `<link>` element.
pub const HREF_ATTR: &'static str = "href";

/// Whether a text is one of the selectors of the rules.
pub open spec fn is_rule_selector(selector: Seq<char>) -> bool {
    ||| selector == TITLE_SELECTOR@
    ||| selector == DESCRIPTION_SELECTOR@
    ||| selector == OG_IMAGE_SELECTOR@
    ||| selector == SHORTCUT_ICON_SELECTOR@
    ||| selector == ICON_SELECTOR@
}

/// What the rules found in a page. A text that was not found is empty.
#[derive(Clone, Debug, PartialEq, Eq)]
pub struct ExtractionResult {
    /// The trimmed text of the title.
    pub title: String,
    /// The trimmed description.
    pub description: String,
    /// The trimmed Open Graph image reference.
    pub og_image: String,
    /// The favicon reference as the page has it: possibly relative, not trimmed.
    pub favicon_href: Option<String>,
}

/// The mathematical value of an [`ExtractionResult`].
pub struct ExtractionView {
    pub title: Seq<char>,
    pub description: Seq<char>,
    pub og_image: Seq<char>,
    pub favicon_href: Option<Seq<char>>,
}

impl View for ExtractionResult {
    type V = ExtractionView;

    open spec fn view(&self) -> ExtractionView {
        ExtractionView {
            title: self.title@,
            description: self.description@,
            og_image: self.og_image@,
            favicon_href: text_view(self.favicon_href),
        }
    }
}

/// The title rule: the trimmed text of the element, or the empty text without one.
pub open spec fn title_of(found: Option<Seq<char>>) -> Seq<char> {
    match found {
        Some(text) => trimmed(text),
        None => Seq::empty(),
    }
}

/// The rule for a `<meta>` element: its trimmed `content`, or the empty text where
/// the element or the attribute is missing.
pub open spec fn content_of(found: Option<Option<Seq<char>>>) -> Seq<char> {
    match found {
        Some(Some(value)) => trimmed(value),
        _ => Seq::empty(),
    }
}

/// The favicon rule: the `href` of the preferred link where the page has one, else
/// that of the fallback. The link that is chosen may lack its `href`: the reference
/// is then absent, and no other link is tried.
pub open spec fn favicon_of(
    shortcut: Option<Option<Seq<char>>>,
    icon: Option<Option<Seq<char>>>,
) -> Option<Seq<char>> {
    match shortcut {
        Some(href) => href,
        None => match icon {
            Some(href) => href,
            None => None,
        },
    }
}

/// What the rules find in the page of a given markup.
pub open spec fn extracted(source: Seq<char>) -> ExtractionView {
    ExtractionView {
        title: title_of(selected_text(source, TITLE_SELECTOR@)),
        description: content_of(selected_attr(source, DESCRIPTION_SELECTOR@, CONTENT_ATTR@)),
        og_image: content_of(selected_attr(source, OG_IMAGE_SELECTOR@, CONTENT_ATTR@)),
        favicon_href: favicon_of(
            selected_attr(source, SHORTCUT_ICON_SELECTOR@, HREF_ATTR@),
            selected_attr(source, ICON_SELECTOR@, HREF_ATTR@),
        ),
    }
}

/// Applies the title rule to the text of the title element, if one was found.
pub fn title_from(found: Option<String>) -> (title: String)
    ensures
        title@ == title_of(text_view(found)),
{
    match found {
        Some(text) => trim(text.as_str()),
        None => String::new(),
    }
}

/// Applies the rule for a `<meta>` element to its `content`, if the element was
/// found and has one.
pub fn content_from(found: Option<Option<String>>) -> (content: String)
    ensures
        content@ == content_of(attr_view(found)),
{
    match found {
        Some(Some(value)) => trim(value.as_str()),
        _ => String::new(),
    }
}

/// Applies the favicon rule to the `href` of the preferred link and of the
/// fallback, each if the link was found and has one.
pub fn favicon_from(shortcut: Option<Option<String>>, icon: Option<Option<String>>) -> (href:
    Option<String>)
    ensures
        text_view(href) == favicon_of(attr_view(shortcut), attr_view(icon)),
        shortcut matches Some(preferred) ==> href == preferred,
{
    match shortcut {
        Some(preferred) => preferred,
        None => match icon {
            Some(fallback) => fallback,
            None => None,
        },
    }
}

/// Applies the rules to a page.
///
/// A page without a title element has the empty title. Of a page with both kinds
/// of favicon link, the preferred one is taken.
pub fn extract(document: &Document) -> (result: ExtractionResult)
    ensures
        result@ == extracted(document.source()),
        selected_text(document.source(), TITLE_SELECTOR@) is None ==> result.title@
            == Seq::<char>::empty(),
        selected_attr(document.source(), SHORTCUT_ICON_SELECTOR@, HREF_ATTR@) matches Some(
            preferred,
        ) ==> text_view(result.favicon_href) == preferred,
{
    let title = title_from(first_text(document, TITLE_SELECTOR));
    let description = content_from(first_attr(document, DESCRIPTION_SELECTOR, CONTENT_ATTR));
    let og_image = content_from(first_attr(document, OG_IMAGE_SELECTOR, CONTENT_ATTR));
    let favicon_href = favicon_from(
        first_attr(document, SHORTCUT_ICON_SELECTOR, HREF_ATTR),
        first_attr(document, ICON_SELECTOR, HREF_ATTR),
    );
    ExtractionResult { title, description, og_image, favicon_href }
}

} // verus!
