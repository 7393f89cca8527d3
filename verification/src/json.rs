//! JSON text fragments: quoted strings and arrays of strings.
use vstd::prelude::*;

use crate::canonical::hex_digit;
use crate::schema::json_parse_failure;

verus! {

/// How `serde_json` writes one character inside a string literal: quote
/// and backslash get a backslash, the five named control characters their
/// short escapes, the other characters below U+0020 a `\u00XX` escape
/// with lower-case hex digits, and every other character itself.
pub open spec fn json_escape_char(c: char) -> Seq<char> {
    let n = c as int;
    if c == '"' {
        seq!['\\', '"']
    } else if c == '\\' {
        seq!['\\', '\\']
    } else if n == 8 {
        seq!['\\', 'b']
    } else if n == 9 {
        seq!['\\', 't']
    } else if n == 10 {
        seq!['\\', 'n']
    } else if n == 12 {
        seq!['\\', 'f']
    } else if n == 13 {
        seq!['\\', 'r']
    } else if n < 32 {
        seq!['\\', 'u', '0', '0', hex_digit(n / 16), hex_digit(n % 16)]
    } else {
        seq![c]
    }
}

/// The characters of `s`, each escaped.
pub open spec fn json_escape(s: Seq<char>) -> Seq<char>
    decreases s.len(),
{
    if s.len() == 0 {
        Seq::empty()
    } else {
        json_escape(s.drop_last()) + json_escape_char(s.last())
    }
}

/// The JSON string literal that `serde_json::to_string` writes for `s`.
pub open spec fn json_quote(s: Seq<char>) -> Seq<char> {
    seq!['"'] + json_escape(s) + seq!['"']
}

/// `serde_json::to_string` on a string slice: the quoted, escaped literal
/// (its escape table and `write_char_escape` give the rule stated in
/// `json_escape_char`). Serializing a `str` cannot fail, so the error arm
/// is never taken.
#[verifier::external_body]
pub(crate) fn quote(s: &str) -> (r: String)
    ensures
        r@ == json_quote(s@),
{
    match serde_json::to_string(s) {
        Ok(text) => text,
        Err(_) => String::new(),
    }
}

/// The string field `key` of the top-level JSON object in `text`, as
/// `serde_json` parses it; `None` when the text is not JSON, not an
/// object, lacks the key, or the value is not a string.
pub uninterp spec fn json_string_field(text: Seq<char>, key: Seq<char>) -> Option<Seq<char>>;

/// Parses `text` with `serde_json` and reads string field `key`. A
/// context document written by `context_json` is valid JSON whose string
/// literals are escaped as `serde_json` writes them, so its string fields
/// read back as written and its `null` and array fields as no string.
#[verifier::external_body]
pub(crate) fn payload_string_field(text: &str, key: &str) -> (r: Option<String>)
    ensures
        match r {
            Some(s) => json_string_field(text@, key@) == Some(s@),
            None => json_string_field(text@, key@) is None,
        },
        forall|c: crate::context::ContextProjection|
            #[trigger] crate::context::context_json(c) == text@ ==> crate::text::opt_view(r)
                == crate::context::context_string_field(c, key@),
{
    match serde_json::from_str::<serde_json::Value>(text) {
        Ok(value) => match value.get(key) {
            Some(serde_json::Value::String(s)) => Some(s.clone()),
            _ => None,
        },
        Err(_) => None,
    }
}

/// Comma-separated quoted strings, without brackets.
pub open spec fn quoted_items(items: Seq<Seq<char>>) -> Seq<char>
    decreases items.len(),
{
    if items.len() == 0 {
        Seq::empty()
    } else if items.len() == 1 {
        json_quote(items[0])
    } else {
        quoted_items(items.drop_last()) + seq![','] + json_quote(items.last())
    }
}

/// A JSON array of strings, as `serde_json` writes it compactly.
pub open spec fn string_array(items: Seq<Seq<char>>) -> Seq<char> {
    seq!['['] + quoted_items(items) + seq![']']
}

/// A quoted string, or `null`.
pub open spec fn optional_string(s: Option<Seq<char>>) -> Seq<char> {
    match s {
        Some(v) => json_quote(v),
        None => seq!['n', 'u', 'l', 'l'],
    }
}

pub fn write_string_array(items: &Vec<String>) -> (r: String)
    ensures
        r@ == string_array(items@.map_values(|s: String| s@)),
{
    let ghost views = items@.map_values(|s: String| s@);
    let mut out = String::new();
    crate::text::push_char(&mut out, '[');
    let mut i: usize = 0;
    while i < items.len()
        invariant
            i <= items.len(),
            views == items@.map_values(|s: String| s@),
            out@ == seq!['['] + quoted_items(views.subrange(0, i as int)),
        decreases items.len() - i,
    {
        proof {
            assert(views.subrange(0, i + 1).drop_last() =~= views.subrange(0, i as int));
        }
        if i > 0 {
            crate::text::push_char(&mut out, ',');
        }
        let q = quote(items[i].as_str());
        out.append(q.as_str());
        proof {
            if i == 0 {
                assert(out@ =~= seq!['['] + quoted_items(views.subrange(0, i + 1)));
            } else {
                assert(out@ =~= seq!['['] + quoted_items(views.subrange(0, i + 1)));
            }
        }
        i = i + 1;
    }
    crate::text::push_char(&mut out, ']');
    assert(views.subrange(0, items.len() as int) =~= views);
    out
}

pub fn write_optional_string(s: &Option<String>) -> (r: String)
    ensures
        r@ == optional_string(
            match s {
                Some(v) => Some(v@),
                None => None,
            },
        ),
{
    match s {
        Some(v) => quote(v.as_str()),
        None => {
            let mut out = String::new();
            crate::text::push_char(&mut out, 'n');
            crate::text::push_char(&mut out, 'u');
            crate::text::push_char(&mut out, 'l');
            crate::text::push_char(&mut out, 'l');
            assert(out@ =~= seq!['n', 'u', 'l', 'l']);
            out
        },
    }
}

/// What a JSON document holds at one place: nothing, a string, an integer
/// in the range of `i64` or `u64`, or any other value.
#[derive(Debug, Clone)]
pub enum JsonLeaf {
    Missing,
    Text(String),
    Integer(i128),
    Other,
}

/// A `JsonLeaf` over plain values.
pub enum JsonLeafView {
    Missing,
    Text(Seq<char>),
    Integer(int),
    Other,
}

impl View for JsonLeaf {
    type V = JsonLeafView;

    open spec fn view(&self) -> JsonLeafView {
        match self {
            JsonLeaf::Missing => JsonLeafView::Missing,
            JsonLeaf::Text(s) => JsonLeafView::Text(s@),
            JsonLeaf::Integer(n) => JsonLeafView::Integer(*n as int),
            JsonLeaf::Other => JsonLeafView::Other,
        }
    }
}

/// What `serde_json` finds at JSON pointer `pointer` (such as
/// `/params/update`) of the document `text`; `None` when `text` is not JSON.
pub uninterp spec fn json_leaf(text: Seq<char>, pointer: Seq<char>) -> Option<JsonLeafView>;

/// Parses `text` with `serde_json` and reads the value at `pointer` with
/// `Value::pointer`, as a string, as an integer (`as_i64`, else
/// `as_u64`), or as some other value; on a parse failure, the parser's
/// message.
#[verifier::external_body]
pub(crate) fn leaf_at(text: &str, pointer: &str) -> (r: Result<JsonLeaf, String>)
    ensures
        match r {
            Ok(l) => json_leaf(text@, pointer@) == Some(l@) && json_parse_failure(text@) is None,
            Err(m) => json_leaf(text@, pointer@) is None && json_parse_failure(text@) == Some(m@),
        },
{
    let value: serde_json::Value = serde_json::from_str(text).map_err(|e| e.to_string())?;
    Ok(match value.pointer(pointer) {
        None => JsonLeaf::Missing,
        Some(serde_json::Value::String(s)) => JsonLeaf::Text(s.clone()),
        Some(v) => match v.as_i64().map(i128::from).or_else(|| v.as_u64().map(i128::from)) {
            Some(n) => JsonLeaf::Integer(n),
            None => JsonLeaf::Other,
        },
    })
}

} // verus!
