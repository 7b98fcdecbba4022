//! Plain operations on text: trimming, and keeping a text on one line.

use vstd::prelude::*;

verus! {

/// The view of an optional text.
pub open spec fn text_view(text: Option<String>) -> Option<Seq<char>> {
    match text {
        Some(t) => Some(t@),
        None => None,
    }
}

/// Whether a character is whitespace: the characters with the Unicode property
/// `White_Space`.
pub open spec fn is_whitespace(c: char) -> bool {
    let code = c as u32;
    ||| 0x09 <= code <= 0x0D
    ||| code == 0x20
    ||| code == 0x85
    ||| code == 0xA0
    ||| code == 0x1680
    ||| 0x2000 <= code <= 0x200A
    ||| code == 0x2028
    ||| code == 0x2029
    ||| code == 0x202F
    ||| code == 0x205F
    ||| code == 0x3000
}

/// The number of whitespace characters that a text begins with.
pub open spec fn leading_whitespace(text: Seq<char>) -> nat
    decreases text.len(),
{
    if text.len() > 0 && is_whitespace(text.first()) {
        1 + leading_whitespace(text.drop_first())
    } else {
        0
    }
}

/// The number of whitespace characters that a text ends with.
pub open spec fn trailing_whitespace(text: Seq<char>) -> nat
    decreases text.len(),
{
    if text.len() > 0 && is_whitespace(text.last()) {
        1 + trailing_whitespace(text.drop_last())
    } else {
        0
    }
}

/// A text without the whitespace at its beginning and at its end. A text of
/// whitespace alone trims to the empty text.
pub open spec fn trimmed(text: Seq<char>) -> Seq<char> {
    let start = leading_whitespace(text);
    if start == text.len() {
        Seq::empty()
    } else {
        text.subrange(start as int, text.len() - trailing_whitespace(text))
    }
}

/// What is left of a trimmed text neither begins nor ends with whitespace, and
/// nothing is left only of a text that is whitespace alone.
pub proof fn lemma_trimmed_has_no_outer_whitespace(text: Seq<char>)
    ensures
        trimmed(text).len() > 0 ==> !is_whitespace(trimmed(text).first()) && !is_whitespace(
            trimmed(text).last(),
        ),
        trimmed(text).len() == 0 <==> forall|k: int|
            0 <= k < text.len() ==> is_whitespace(#[trigger] text[k]),
{
    lemma_whitespace_counts(text);
    lemma_leading_whitespace_bounds(text);
}

/// The leading whitespace ends before a character that is none, and the trailing
/// whitespace begins after one. Unless the text is whitespace alone, the two do not
/// meet.
proof fn lemma_whitespace_counts(text: Seq<char>)
    ensures
        leading_whitespace(text) <= text.len(),
        trailing_whitespace(text) <= text.len(),
        leading_whitespace(text) < text.len() ==> {
            &&& !is_whitespace(text[leading_whitespace(text) as int])
            &&& !is_whitespace(text[text.len() - trailing_whitespace(text) - 1])
            &&& leading_whitespace(text) + trailing_whitespace(text) < text.len()
        },
{
    lemma_leading_whitespace_bounds(text);
    lemma_trailing_whitespace_bounds(text);
    let start = leading_whitespace(text) as int;
    if start < text.len() {
        let end = text.len() - trailing_whitespace(text);
        if end <= start {
            assert(is_whitespace(text[start]));
        }
    }
}

/// The characters counted as leading whitespace are whitespace, and the next is
/// none.
proof fn lemma_leading_whitespace_bounds(text: Seq<char>)
    ensures
        leading_whitespace(text) <= text.len(),
        forall|k: int| 0 <= k < leading_whitespace(text) ==> is_whitespace(#[trigger] text[k]),
        leading_whitespace(text) < text.len() ==> !is_whitespace(
            text[leading_whitespace(text) as int],
        ),
    decreases text.len(),
{
    if text.len() > 0 && is_whitespace(text.first()) {
        let rest = text.drop_first();
        lemma_leading_whitespace_bounds(rest);
        assert forall|k: int| 0 <= k < leading_whitespace(text) implies is_whitespace(
            #[trigger] text[k],
        ) by {
            if k > 0 {
                assert(text[k] == rest[k - 1]);
            }
        }
        if leading_whitespace(text) < text.len() {
            assert(text[leading_whitespace(text) as int] == rest[leading_whitespace(rest) as int]);
        }
    }
}

/// The characters counted as trailing whitespace are whitespace, and the one
/// before them is none.
proof fn lemma_trailing_whitespace_bounds(text: Seq<char>)
    ensures
        trailing_whitespace(text) <= text.len(),
        forall|k: int|
            text.len() - trailing_whitespace(text) <= k < text.len() ==> is_whitespace(
                #[trigger] text[k],
            ),
        trailing_whitespace(text) < text.len() ==> !is_whitespace(
            text[text.len() - trailing_whitespace(text) - 1],
        ),
    decreases text.len(),
{
    if text.len() > 0 && is_whitespace(text.last()) {
        let rest = text.drop_last();
        lemma_trailing_whitespace_bounds(rest);
        assert forall|k: int|
            text.len() - trailing_whitespace(text) <= k < text.len() implies is_whitespace(
            #[trigger] text[k],
        ) by {
            if k < rest.len() {
                assert(text[k] == rest[k]);
            }
        }
        if trailing_whitespace(text) < text.len() {
            assert(text[text.len() - trailing_whitespace(text) - 1] == rest[rest.len()
                - trailing_whitespace(rest) - 1]);
        }
    }
}

/// Whitespace before position `count`, and none at it, is the leading whitespace.
proof fn lemma_leading_whitespace(text: Seq<char>, count: int)
    requires
        0 <= count <= text.len(),
        forall|k: int| 0 <= k < count ==> is_whitespace(#[trigger] text[k]),
        count < text.len() ==> !is_whitespace(text[count]),
    ensures
        leading_whitespace(text) == count,
    decreases count,
{
    if count > 0 {
        let rest = text.drop_first();
        assert forall|k: int| 0 <= k < count - 1 implies is_whitespace(#[trigger] rest[k]) by {
            assert(rest[k] == text[k + 1]);
        }
        lemma_leading_whitespace(rest, count - 1);
    }
}

/// Whitespace from position `end` on, and none before it, is the trailing
/// whitespace.
proof fn lemma_trailing_whitespace(text: Seq<char>, end: int)
    requires
        0 <= end <= text.len(),
        forall|k: int| end <= k < text.len() ==> is_whitespace(#[trigger] text[k]),
        end > 0 ==> !is_whitespace(text[end - 1]),
    ensures
        trailing_whitespace(text) == text.len() - end,
    decreases text.len() - end,
{
    if end < text.len() {
        let rest = text.drop_last();
        assert forall|k: int| end <= k < rest.len() implies is_whitespace(#[trigger] rest[k]) by {
            assert(rest[k] == text[k]);
        }
        lemma_trailing_whitespace(rest, end);
    }
}

/// Tells whether a character is whitespace.
pub fn is_whitespace_char(c: char) -> (white: bool)
    ensures
        white == is_whitespace(c),
{
    let code = c as u32;
    (0x09 <= code && code <= 0x0D) || code == 0x20 || code == 0x85 || code == 0xA0 || code
        == 0x1680 || (0x2000 <= code && code <= 0x200A) || code == 0x2028 || code == 0x2029
        || code == 0x202F || code == 0x205F || code == 0x3000
}

/// Copies a text without the whitespace at its beginning and at its end.
pub fn trim(text: &str) -> (result: String)
    ensures
        result@ == trimmed(text@),
{
    let length = text.unicode_len();
    let mut start: usize = 0;
    let mut end: usize = 0;
    let mut index: usize = 0;
    for c in chars: text.chars()
        invariant
            length == text@.len(),
            chars.seq() == text@,
            index == chars.index(),
            start <= end <= index,
            end == 0 ==> start == 0,
            forall|k: int| 0 <= k < start ==> is_whitespace(#[trigger] text@[k]),
            forall|k: int| end <= k < index ==> is_whitespace(#[trigger] text@[k]),
            end > 0 ==> start < end && !is_whitespace(text@[start as int]) && !is_whitespace(
                text@[end - 1],
            ),
    {
        if !is_whitespace_char(c) {
            if end == 0 {
                start = index;
            }
            end = index + 1;
        }
        index = index + 1;
    }
    proof {
        if end == 0 {
            lemma_leading_whitespace(text@, text@.len() as int);
        } else {
            lemma_leading_whitespace(text@, start as int);
            lemma_trailing_whitespace(text@, end as int);
        }
    }
    if end == 0 {
        String::new()
    } else {
        text.substring_char(start, end).to_owned()
    }
}

/// Whether a character ends a line: a line feed or a carriage return.
pub open spec fn is_line_break(c: char) -> bool {
    c == '\n' || c == '\r'
}

/// A text without its line breaks: the other characters, in their order.
pub open spec fn without_line_breaks(text: Seq<char>) -> Seq<char>
    decreases text.len(),
{
    if text.len() == 0 {
        text
    } else {
        let kept = without_line_breaks(text.drop_last());
        if is_line_break(text.last()) {
            kept
        } else {
            kept.push(text.last())
        }
    }
}

/// A text without its line breaks holds no line break.
pub proof fn lemma_without_line_breaks_is_one_line(text: Seq<char>)
    ensures
        forall|i: int|
            0 <= i < without_line_breaks(text).len() ==> !is_line_break(
                #[trigger] without_line_breaks(text)[i],
            ),
    decreases text.len(),
{
    if text.len() > 0 {
        let kept = without_line_breaks(text.drop_last());
        lemma_without_line_breaks_is_one_line(text.drop_last());
        assert forall|i: int| 0 <= i < without_line_breaks(text).len() implies !is_line_break(
            #[trigger] without_line_breaks(text)[i],
        ) by {
            if i < kept.len() {
                assert(without_line_breaks(text)[i] == kept[i]);
            }
        }
    }
}

/// A text that holds no line break is left as it is.
pub proof fn lemma_one_line_is_kept(text: Seq<char>)
    requires
        forall|i: int| 0 <= i < text.len() ==> !is_line_break(#[trigger] text[i]),
    ensures
        without_line_breaks(text) == text,
    decreases text.len(),
{
    if text.len() > 0 {
        let front = text.drop_last();
        assert forall|i: int| 0 <= i < front.len() implies !is_line_break(#[trigger] front[i]) by {
            assert(front[i] == text[i]);
        }
        lemma_one_line_is_kept(front);
        assert(front.push(text.last()) == text);
    }
}

/// Tells whether a character ends a line.
pub fn is_line_break_char(c: char) -> (breaks: bool)
    ensures
        breaks == is_line_break(c),
{
    c == '\n' || c == '\r'
}

/// Calls `String::push`, which appends one character to a text.
#[verifier::external_body]
fn push_char(text: &mut String, c: char)
    ensures
        final(text)@ == old(text)@.push(c),
{
    text.push(c)
}

/// Takes the line breaks out of a text, so that it can stand as one line among
/// others. A text without line breaks comes back as it is.
pub fn single_line(text: String) -> (line: String)
    ensures
        line@ == without_line_breaks(text@),
        forall|i: int| 0 <= i < line@.len() ==> !is_line_break(#[trigger] line@[i]),
{
    proof {
        lemma_without_line_breaks_is_one_line(text@);
    }
    let source = text.as_str();
    let mut clean = true;
    for c in chars: source.chars()
        invariant
            chars.seq() == text@,
            clean <==> forall|k: int|
                0 <= k < chars.index() ==> !is_line_break(#[trigger] text@[k]),
    {
        if is_line_break_char(c) {
            clean = false;
        }
    }
    if clean {
        proof {
            lemma_one_line_is_kept(text@);
        }
        return text;
    }
    let mut line = String::new();
    assert(text@.take(0) == Seq::<char>::empty());
    for c in chars: source.chars()
        invariant
            chars.seq() == text@,
            line@ == without_line_breaks(text@.take(chars.index())),
    {
        proof {
            let next = text@.take(chars.index() + 1);
            assert(next.drop_last() == text@.take(chars.index()));
            assert(next.last() == c);
        }
        if !is_line_break_char(c) {
            push_char(&mut line, c);
        }
    }
    assert(text@.take(text@.len() as int) == text@);
    line
}

} // verus!
