//! The wire format: one JSON object per line.
//!
//! JSON text is read and written by the `serde_json` crate. The library decides
//! which members make a record and what their absence means.

use crate::error::Error;
use crate::record::{Output, OutputView, Request, RequestView};
use crate::text::{is_line_break, single_line, text_view, without_line_breaks};
use vstd::prelude::*;

verus! {

/// The member that holds the identifier of a record.
pub const ID_KEY: &'static str = "id";

/// The member that holds the URL of a request.
pub const URL_KEY: &'static str = "url";

/// The member that holds the title.
pub const TITLE_KEY: &'static str = "title";

/// The member that holds the description.
pub const DESCRIPTION_KEY: &'static str = "description";

/// The member that holds the Open Graph image reference.
pub const OG_IMAGE_KEY: &'static str = "og_image";

/// The member that holds the bytes of the favicon.
pub const FAVICON_KEY: &'static str = "favicon";

/// The value of one member of an object, as far as a record can hold it.
#[derive(Clone, Debug, PartialEq, Eq)]
pub enum Field {
    /// A JSON string.
    Text(String),
    /// A JSON array of integers from 0 to 255.
    Bytes(Vec<u8>),
    /// Any other JSON value. It is written as `null`.
    Other,
}

/// The mathematical value of a [`Field`].
pub enum FieldView {
    Text(Seq<char>),
    Bytes(Seq<u8>),
    Other,
}

impl View for Field {
    type V = FieldView;

    open spec fn view(&self) -> FieldView {
        match self {
            Field::Text(text) => FieldView::Text(text@),
            Field::Bytes(bytes) => FieldView::Bytes(bytes@),
            Field::Other => FieldView::Other,
        }
    }
}

/// The members of an object in their order, each by its view.
pub open spec fn members_view(members: Seq<(String, Field)>) -> Seq<(Seq<char>, FieldView)> {
    Seq::new(members.len(), |i: int| (members[i].0@, members[i].1@))
}

/// The members of the object that `serde_json::from_str` reads from a text, or
/// `None` where the text is no JSON object. Each key comes once: at the place where
/// the text has it first, and with the value that the text has for it last.
pub uninterp spec fn parsed_object(text: Seq<char>) -> Option<Seq<(Seq<char>, FieldView)>>;

/// The text that `serde_json::to_string` writes for the object of the given
/// members, in their order.
pub uninterp spec fn rendered_object(members: Seq<(Seq<char>, FieldView)>) -> Seq<char>;

/// Calls `serde_json::from_str` for a `serde_json::Map`, and hands out its members
/// in their order. A string comes out as [`Field::Text`]; a value that
/// `serde_json::from_value` reads as bytes as [`Field::Bytes`]; any other as
/// [`Field::Other`]. The contract claims only that the outcome is a function of the
/// text: [`parsed_object`] names it.
#[verifier::external_body]
fn parse_object(text: &str) -> (members: Option<Vec<(String, Field)>>)
    ensures
        match members {
            Some(found) => parsed_object(text@) == Some(members_view(found@)),
            None => parsed_object(text@) is None,
        },
{
    let object: serde_json::Map<String, serde_json::Value> = serde_json::from_str(text).ok()?;
    Some(object.into_iter().map(|(key, value)| (key, match value {
        serde_json::Value::String(text) => Field::Text(text),
        other => match serde_json::from_value::<Vec<u8>>(other) {
            Ok(bytes) => Field::Bytes(bytes),
            Err(_) => Field::Other,
        },
    })).collect())
}

/// Collects the members into a `serde_json::Map` and calls `serde_json::to_string`
/// on it, which cannot fail on a map of strings, numbers and `null`. The contract
/// claims only that the text is a function of the members: [`rendered_object`] names
/// it.
#[verifier::external_body]
fn render_object(members: &Vec<(String, Field)>) -> (text: String)
    ensures
        text@ == rendered_object(members_view(members@)),
{
    let values = members.iter().map(|(key, value)| (key.clone(), match value {
        Field::Text(text) => serde_json::Value::from(text.as_str()),
        Field::Bytes(bytes) => serde_json::Value::from(bytes.as_slice()),
        Field::Other => serde_json::Value::Null,
    }));
    let object: serde_json::Map<String, serde_json::Value> = values.collect();
    serde_json::to_string(&object).unwrap_or_default()
}

/// The value of the first member with a given key.
pub open spec fn member_of(members: Seq<(Seq<char>, FieldView)>, key: Seq<char>) -> Option<
    FieldView,
>
    decreases members.len(),
{
    if members.len() == 0 {
        None
    } else if members.first().0 == key {
        Some(members.first().1)
    } else {
        member_of(members.drop_first(), key)
    }
}

/// The text under a given key, where the first member with that key holds text.
pub open spec fn text_of(members: Seq<(Seq<char>, FieldView)>, key: Seq<char>) -> Option<
    Seq<char>,
> {
    match member_of(members, key) {
        Some(FieldView::Text(text)) => Some(text),
        _ => None,
    }
}

/// The bytes under a given key, where the first member with that key holds bytes.
pub open spec fn bytes_of(members: Seq<(Seq<char>, FieldView)>, key: Seq<char>) -> Option<
    Seq<u8>,
> {
    match member_of(members, key) {
        Some(FieldView::Bytes(bytes)) => Some(bytes),
        _ => None,
    }
}

/// The request that the members of an object make: it needs `id` and `url`, both
/// text. Other members do not count.
pub open spec fn request_of(members: Seq<(Seq<char>, FieldView)>) -> Result<RequestView, Error> {
    match (text_of(members, ID_KEY@), text_of(members, URL_KEY@)) {
        (Some(id), Some(url)) => Ok(RequestView { id, url }),
        _ => Err(Error::MalformedInput),
    }
}

/// The output that the members of an object make: it needs `id`, `title`,
/// `description` and `og_image`, all text, and `favicon`, bytes.
pub open spec fn output_of(members: Seq<(Seq<char>, FieldView)>) -> Result<OutputView, Error> {
    match (
        text_of(members, ID_KEY@),
        text_of(members, TITLE_KEY@),
        text_of(members, DESCRIPTION_KEY@),
        text_of(members, OG_IMAGE_KEY@),
        bytes_of(members, FAVICON_KEY@),
    ) {
        (Some(id), Some(title), Some(description), Some(og_image), Some(favicon)) => Ok(
            OutputView { id, title, description, og_image, favicon },
        ),
        _ => Err(Error::MalformedInput),
    }
}

/// The members that a request is written as.
pub open spec fn request_members(request: RequestView) -> Seq<(Seq<char>, FieldView)> {
    seq![(ID_KEY@, FieldView::Text(request.id)), (URL_KEY@, FieldView::Text(request.url))]
}

/// The members that an output is written as.
pub open spec fn output_members(output: OutputView) -> Seq<(Seq<char>, FieldView)> {
    seq![
        (ID_KEY@, FieldView::Text(output.id)),
        (TITLE_KEY@, FieldView::Text(output.title)),
        (DESCRIPTION_KEY@, FieldView::Text(output.description)),
        (OG_IMAGE_KEY@, FieldView::Text(output.og_image)),
        (FAVICON_KEY@, FieldView::Bytes(output.favicon)),
    ]
}

/// The line that the members of an object are written as: the text that
/// `serde_json` writes, without line breaks. JSON text can hold a line break only
/// between its tokens, where it means nothing.
pub open spec fn encoded(members: Seq<(Seq<char>, FieldView)>) -> Seq<char> {
    without_line_breaks(rendered_object(members))
}

/// The request that a line decodes to.
pub open spec fn decoded_request(line: Seq<char>) -> Result<RequestView, Error> {
    match parsed_object(line) {
        Some(members) => request_of(members),
        None => Err(Error::MalformedInput),
    }
}

/// The output that a line decodes to.
pub open spec fn decoded_output(line: Seq<char>) -> Result<OutputView, Error> {
    match parsed_object(line) {
        Some(members) => output_of(members),
        None => Err(Error::MalformedInput),
    }
}

/// The view of a decoded request.
pub open spec fn request_view(outcome: Result<Request, Error>) -> Result<RequestView, Error> {
    match outcome {
        Ok(request) => Ok(request@),
        Err(e) => Err(e),
    }
}

/// The view of a decoded output.
pub open spec fn output_view(outcome: Result<Output, Error>) -> Result<OutputView, Error> {
    match outcome {
        Ok(output) => Ok(output@),
        Err(e) => Err(e),
    }
}

/// Finds the first member with a given key.
fn find_member<'a>(members: &'a Vec<(String, Field)>, key: &str) -> (found: Option<&'a Field>)
    ensures
        match found {
            Some(field) => member_of(members_view(members@), key@) == Some(field@),
            None => member_of(members_view(members@), key@) is None,
        },
{
    let wanted = key.to_owned();
    let ghost all = members_view(members@);
    let mut index: usize = 0;
    assert(all.skip(0) == all);
    while index < members.len()
        invariant
            index <= members.len(),
            wanted@ == key@,
            all == members_view(members@),
            member_of(all, key@) == member_of(all.skip(index as int), key@),
        decreases members.len() - index,
    {
        proof {
            let rest = all.skip(index as int);
            assert(rest.first() == all[index as int]);
            assert(rest.drop_first() == all.skip(index + 1));
        }
        if members[index].0 == wanted {
            return Some(&members[index].1);
        }
        index = index + 1;
    }
    None
}

/// Copies the text under a given key, where the first member with that key holds
/// text.
pub fn text_member(members: &Vec<(String, Field)>, key: &str) -> (found: Option<String>)
    ensures
        text_view(found) == text_of(members_view(members@), key@),
{
    match find_member(members, key) {
        Some(Field::Text(text)) => Some(text.clone()),
        _ => None,
    }
}

/// Copies the bytes under a given key, where the first member with that key holds
/// bytes.
pub fn bytes_member(members: &Vec<(String, Field)>, key: &str) -> (found: Option<Vec<u8>>)
    ensures
        match found {
            Some(bytes) => bytes_of(members_view(members@), key@) == Some(bytes@),
            None => bytes_of(members_view(members@), key@) is None,
        },
{
    match find_member(members, key) {
        Some(Field::Bytes(bytes)) => Some(bytes.clone()),
        _ => None,
    }
}

/// Makes a request of the members of an object.
///
/// Fails with [`Error::MalformedInput`] unless `id` and `url` are both there and
/// both text.
pub fn request_from_members(members: &Vec<(String, Field)>) -> (outcome: Result<Request, Error>)
    ensures
        request_view(outcome) == request_of(members_view(members@)),
{
    match (text_member(members, ID_KEY), text_member(members, URL_KEY)) {
        (Some(id), Some(url)) => Ok(Request { id, url }),
        _ => Err(Error::MalformedInput),
    }
}

/// Makes an output of the members of an object.
///
/// Fails with [`Error::MalformedInput`] unless `id`, `title`, `description` and
/// `og_image` are there as text and `favicon` as bytes.
pub fn output_from_members(members: &Vec<(String, Field)>) -> (outcome: Result<Output, Error>)
    ensures
        output_view(outcome) == output_of(members_view(members@)),
{
    match (
        text_member(members, ID_KEY),
        text_member(members, TITLE_KEY),
        text_member(members, DESCRIPTION_KEY),
        text_member(members, OG_IMAGE_KEY),
        bytes_member(members, FAVICON_KEY),
    ) {
        (Some(id), Some(title), Some(description), Some(og_image), Some(favicon)) => Ok(
            Output { id, title, description, og_image, favicon },
        ),
        _ => Err(Error::MalformedInput),
    }
}

/// Lists the members that a request is written as.
pub fn members_of_request(request: &Request) -> (members: Vec<(String, Field)>)
    ensures
        members_view(members@) == request_members(request@),
{
    let mut members: Vec<(String, Field)> = Vec::new();
    members.push((ID_KEY.to_owned(), Field::Text(request.id.clone())));
    members.push((URL_KEY.to_owned(), Field::Text(request.url.clone())));
    members
}

/// Lists the members that an output is written as.
pub fn members_of_output(output: &Output) -> (members: Vec<(String, Field)>)
    ensures
        members_view(members@) == output_members(output@),
{
    let mut members: Vec<(String, Field)> = Vec::new();
    members.push((ID_KEY.to_owned(), Field::Text(output.id.clone())));
    members.push((TITLE_KEY.to_owned(), Field::Text(output.title.clone())));
    members.push((DESCRIPTION_KEY.to_owned(), Field::Text(output.description.clone())));
    members.push((OG_IMAGE_KEY.to_owned(), Field::Text(output.og_image.clone())));
    members.push((FAVICON_KEY.to_owned(), Field::Bytes(output.favicon.clone())));
    members
}

/// Decodes one input line.
///
/// Fails with [`Error::MalformedInput`] where the line is no JSON object, and
/// where the object lacks `id` or `url` as text.
pub fn decode_request(line: &str) -> (outcome: Result<Request, Error>)
    ensures
        request_view(outcome) == decoded_request(line@),
{
    match parse_object(line) {
        Some(members) => request_from_members(&members),
        None => Err(Error::MalformedInput),
    }
}

/// Decodes one output line.
///
/// Fails with [`Error::MalformedInput`] where the line is no JSON object, and
/// where the object lacks one of the members of an output.
pub fn decode_output(line: &str) -> (outcome: Result<Output, Error>)
    ensures
        output_view(outcome) == decoded_output(line@),
{
    match parse_object(line) {
        Some(members) => output_from_members(&members),
        None => Err(Error::MalformedInput),
    }
}

/// Encodes a request as one line: an object with `id` and `url`. The line holds
/// no line break.
pub fn encode_request(request: &Request) -> (line: String)
    ensures
        line@ == encoded(request_members(request@)),
        forall|i: int| 0 <= i < line@.len() ==> !is_line_break(#[trigger] line@[i]),
{
    single_line(render_object(&members_of_request(request)))
}

/// Encodes an output as one line: an object with `id`, `title`, `description`,
/// `og_image` and `favicon`, the favicon as an array of its bytes. The line holds
/// no line break.
pub fn encode_output(output: &Output) -> (line: String)
    ensures
        line@ == encoded(output_members(output@)),
        forall|i: int| 0 <= i < line@.len() ==> !is_line_break(#[trigger] line@[i]),
{
    single_line(render_object(&members_of_output(output)))
}

/// A line that does not decode is malformed input, whatever is wrong with it.
pub proof fn lemma_decoding_fails_as_malformed(line: Seq<char>)
    ensures
        decoded_request(line) matches Err(e) ==> e == Error::MalformedInput,
        decoded_output(line) matches Err(e) ==> e == Error::MalformedInput,
{
}

/// The first member with a key, found by its position.
proof fn lemma_member_at(members: Seq<(Seq<char>, FieldView)>, index: int, key: Seq<char>)
    requires
        0 <= index < members.len(),
        members[index].0 == key,
        forall|j: int| 0 <= j < index ==> (#[trigger] members[j]).0 != key,
    ensures
        member_of(members, key) == Some(members[index].1),
    decreases index,
{
    if index > 0 {
        let rest = members.drop_first();
        assert forall|j: int| 0 <= j < index - 1 implies (#[trigger] rest[j]).0 != key by {
            assert(rest[j] == members[j + 1]);
        }
        lemma_member_at(rest, index - 1, key);
    }
}

/// The keys of a record differ from each other.
proof fn lemma_keys_differ()
    ensures
        ID_KEY@.len() == 2,
        URL_KEY@.len() == 3,
        TITLE_KEY@.len() == 5,
        DESCRIPTION_KEY@.len() == 11,
        OG_IMAGE_KEY@.len() == 8,
        FAVICON_KEY@.len() == 7,
{
    reveal_strlit("id");
    reveal_strlit("url");
    reveal_strlit("title");
    reveal_strlit("description");
    reveal_strlit("og_image");
    reveal_strlit("favicon");
}

/// The members that a request is written as make that request again.
pub proof fn lemma_request_members_round_trip(request: RequestView)
    ensures
        request_of(request_members(request)) == Ok::<RequestView, Error>(request),
{
    let members = request_members(request);
    lemma_keys_differ();
    lemma_member_at(members, 0, ID_KEY@);
    lemma_member_at(members, 1, URL_KEY@);
}

/// The members that an output is written as make that output again, whatever
/// bytes its favicon holds.
pub proof fn lemma_output_members_round_trip(output: OutputView)
    ensures
        output_of(output_members(output)) == Ok::<OutputView, Error>(output),
{
    let members = output_members(output);
    lemma_keys_differ();
    lemma_member_at(members, 0, ID_KEY@);
    lemma_member_at(members, 1, TITLE_KEY@);
    lemma_member_at(members, 2, DESCRIPTION_KEY@);
    lemma_member_at(members, 3, OG_IMAGE_KEY@);
    lemma_member_at(members, 4, FAVICON_KEY@);
}

} // verus!
