use read_metadata::document::{Document, MAX_MARKUP_BYTES};
use read_metadata::extractor::{
    content_from, extract, favicon_from, title_from, ExtractionResult, CONTENT_ATTR, DESCRIPTION_SELECTOR, HREF_ATTR,
    ICON_SELECTOR, OG_IMAGE_SELECTOR, SHORTCUT_ICON_SELECTOR, TITLE_SELECTOR,
};

fn extraction_of(markup: &str) -> ExtractionResult {
    extract(&Document::from_markup(markup).unwrap())
}

#[test]
fn selectors_have_their_texts() {
    assert_eq!(TITLE_SELECTOR, "title");
    assert_eq!(DESCRIPTION_SELECTOR, "meta[name=\"description\"]");
    assert_eq!(OG_IMAGE_SELECTOR, "meta[property=\"og:image\"]");
    assert_eq!(SHORTCUT_ICON_SELECTOR, "link[rel=\"shortcut icon\"]");
    assert_eq!(ICON_SELECTOR, "link[rel=\"icon\"]");
    assert_eq!(CONTENT_ATTR, "content");
    assert_eq!(HREF_ATTR, "href");
}

#[test]
fn page_with_title_and_description() {
    let found = extraction_of(
        "<html><head><title> Hi </title><meta name=\"description\" content=\"desc\"></head></html>",
    );
    assert_eq!(
        found,
        ExtractionResult {
            title: "Hi".to_string(),
            description: "desc".to_string(),
            og_image: String::new(),
            favicon_href: None,
        }
    );
}

#[test]
fn page_with_everything() {
    let found = extraction_of(
        "<!DOCTYPE html><html><head>\
         <title>\n  A page \n</title>\
         <meta name=\"description\" content=\"  what it is about \">\
         <meta property=\"og:image\" content=\" http://example.test/og.png \">\
         <link rel=\"icon\" href=\" /fav.ico \">\
         </head><body><p>text</p></body></html>",
    );
    assert_eq!(
        found,
        ExtractionResult {
            title: "A page".to_string(),
            description: "what it is about".to_string(),
            og_image: "http://example.test/og.png".to_string(),
            favicon_href: Some(" /fav.ico ".to_string()),
        }
    );
}

#[test]
fn missing_title_is_the_empty_text() {
    let found = extraction_of("<html><head></head><body><p>no title here</p></body></html>");
    assert_eq!(found.title, "");
}

#[test]
fn empty_page_has_empty_fields() {
    let found = extraction_of("");
    assert_eq!(
        found,
        ExtractionResult {
            title: String::new(),
            description: String::new(),
            og_image: String::new(),
            favicon_href: None,
        }
    );
}

#[test]
fn empty_title_is_the_empty_text() {
    assert_eq!(extraction_of("<title></title>").title, "");
    assert_eq!(extraction_of("<title>   \n </title>").title, "");
}

#[test]
fn first_title_counts() {
    let found = extraction_of("<html><head><title>one</title><title>two</title></head></html>");
    assert_eq!(found.title, "one");
}

#[test]
fn first_description_counts() {
    let found = extraction_of(
        "<meta name=\"description\" content=\"first\"><meta name=\"description\" content=\"second\">",
    );
    assert_eq!(found.description, "first");
}

#[test]
fn description_without_content_is_the_empty_text() {
    let found = extraction_of("<meta name=\"description\"><title>t</title>");
    assert_eq!(found.description, "");
    assert_eq!(found.title, "t");
}

#[test]
fn description_without_content_hides_a_later_one() {
    let found =
        extraction_of("<meta name=\"description\"><meta name=\"description\" content=\"late\">");
    assert_eq!(found.description, "");
}

#[test]
fn meta_values_are_matched_with_their_case() {
    let found = extraction_of(
        "<meta name=\"Description\" content=\"upper\"><meta property=\"OG:IMAGE\" content=\"upper\">",
    );
    assert_eq!(found.description, "");
    assert_eq!(found.og_image, "");
}

#[test]
fn link_kinds_are_matched_without_their_case() {
    let found = extraction_of("<link rel=\"ICON\" href=\"/upper.ico\">");
    assert_eq!(found.favicon_href, Some("/upper.ico".to_string()));
    let found = extraction_of(
        "<link rel=\"icon\" href=\"/plain.ico\"><link rel=\"Shortcut Icon\" href=\"/short.ico\">",
    );
    assert_eq!(found.favicon_href, Some("/short.ico".to_string()));
}

#[test]
fn link_kinds_are_matched_whole() {
    let found = extraction_of("<link rel=\"icon shortcut\" href=\"/a.ico\"><link rel=\"apple-touch-icon\" href=\"/b.png\">");
    assert_eq!(found.favicon_href, None);
}

#[test]
fn other_meta_elements_do_not_count() {
    let found = extraction_of(
        "<meta name=\"keywords\" content=\"a,b\"><meta property=\"og:title\" content=\"t\">",
    );
    assert_eq!(found.description, "");
    assert_eq!(found.og_image, "");
}

#[test]
fn shortcut_icon_is_preferred() {
    let found = extraction_of(
        "<link rel=\"icon\" href=\"/plain.ico\"><link rel=\"shortcut icon\" href=\"/short.ico\">",
    );
    assert_eq!(found.favicon_href, Some("/short.ico".to_string()));
    let found = extraction_of(
        "<link rel=\"shortcut icon\" href=\"/short.ico\"><link rel=\"icon\" href=\"/plain.ico\">",
    );
    assert_eq!(found.favicon_href, Some("/short.ico".to_string()));
}

#[test]
fn icon_is_the_fallback() {
    let found = extraction_of("<link rel=\"stylesheet\" href=\"/s.css\"><link rel=\"icon\" href=\"/plain.ico\">");
    assert_eq!(found.favicon_href, Some("/plain.ico".to_string()));
}

#[test]
fn first_link_of_a_kind_counts() {
    let found = extraction_of("<link rel=\"icon\" href=\"/one.ico\"><link rel=\"icon\" href=\"/two.ico\">");
    assert_eq!(found.favicon_href, Some("/one.ico".to_string()));
}

#[test]
fn link_without_href_is_no_reference() {
    let found = extraction_of("<title>t</title><link rel=\"icon\">");
    assert_eq!(found.favicon_href, None);
    assert_eq!(found.title, "t");
}

#[test]
fn preferred_link_without_href_is_not_replaced_by_the_fallback() {
    let found = extraction_of("<link rel=\"shortcut icon\"><link rel=\"icon\" href=\"/plain.ico\">");
    assert_eq!(found.favicon_href, None);
}

#[test]
fn page_without_links_has_no_reference() {
    assert_eq!(extraction_of("<title>t</title>").favicon_href, None);
}

#[test]
fn malformed_markup_still_parses() {
    let found = extraction_of("<html><head><title>Broken<meta name=\"description\" content=\"d\"><<<");
    assert_eq!(found.description, "");
    assert_eq!(found.favicon_href, None);
    let found = extraction_of("</p></div><title>late</title><b><i>x</b></i>");
    assert_eq!(found.title, "late");
}

#[test]
fn title_is_the_text_of_the_whole_element() {
    assert_eq!(extraction_of("<title>one &amp; two</title>").title, "one & two");
    assert_eq!(extraction_of("<title>a <b>b</b> c</title>").title, "a <b>b</b> c");
}

#[test]
fn attribute_values_are_decoded() {
    let found = extraction_of(
        "<meta name=description content='a &quot;b&quot; &lt;c&gt;'><link rel=icon href=/x?a=1&amp;b=2>",
    );
    assert_eq!(found.description, "a \"b\" <c>");
    assert_eq!(found.favicon_href, Some("/x?a=1&b=2".to_string()));
}

#[test]
fn title_rule() {
    assert_eq!(title_from(None), "");
    assert_eq!(title_from(Some(String::new())), "");
    assert_eq!(title_from(Some(" Hi ".to_string())), "Hi");
}

#[test]
fn content_rule() {
    assert_eq!(content_from(None), "");
    assert_eq!(content_from(Some(None)), "");
    assert_eq!(content_from(Some(Some(" desc\n".to_string()))), "desc");
}

#[test]
fn favicon_rule() {
    let short = || Some(Some("/short.ico".to_string()));
    let plain = || Some(Some("/plain.ico".to_string()));
    assert_eq!(favicon_from(short(), plain()), Some("/short.ico".to_string()));
    assert_eq!(favicon_from(short(), None), Some("/short.ico".to_string()));
    assert_eq!(favicon_from(short(), Some(None)), Some("/short.ico".to_string()));
    assert_eq!(favicon_from(None, plain()), Some("/plain.ico".to_string()));
    assert_eq!(favicon_from(Some(None), plain()), None);
    assert_eq!(favicon_from(None, Some(None)), None);
    assert_eq!(favicon_from(None, None), None);
}

#[test]
fn the_longest_markup_has_256_mebibytes() {
    assert_eq!(MAX_MARKUP_BYTES, 268_435_456);
}

#[test]
fn markup_over_the_bound_is_not_parsed() {
    let markup = "a".repeat(MAX_MARKUP_BYTES + 1);
    assert!(Document::from_markup(&markup).is_none());
}

#[test]
fn markup_is_measured_in_bytes_not_characters() {
    let markup = "\u{E9}".repeat(MAX_MARKUP_BYTES / 2 + 1);
    assert_eq!(markup.chars().count(), MAX_MARKUP_BYTES / 2 + 1);
    assert!(Document::from_markup(&markup).is_none());
}

#[test]
fn markup_of_a_megabyte_is_parsed() {
    let mut markup = String::from("<title>big</title><p>");
    markup.push_str(&"x\u{0}".repeat(500_000));
    markup.push_str("</p><link rel=\"icon\" href=\"/late.ico\">");
    let found = extract(&Document::from_markup(&markup).unwrap());
    assert_eq!(found.title, "big");
    assert_eq!(found.favicon_href, Some("/late.ico".to_string()));
}
