//! The part of a JSON document that the pipeline reads: whether the top level
//! is an object and, for each member, whether it is null, a string or
//! something else. Parsing and printing are done by serde_json.
use vstd::prelude::*;

verus! {

/// One member value of a top-level JSON object, as far as validation reads it.
#[derive(Debug, Clone)]
pub enum JsonField {
    Null,
    Text(String),
    Other,
}

pub enum JsonFieldView {
    Null,
    Text(Seq<char>),
    Other,
}

impl View for JsonField {
    type V = JsonFieldView;

    open spec fn view(&self) -> JsonFieldView {
        match self {
            JsonField::Null => JsonFieldView::Null,
            JsonField::Text(s) => JsonFieldView::Text(s@),
            JsonField::Other => JsonFieldView::Other,
        }
    }
}

/// A parsed JSON document: an object with its members, or anything else.
#[derive(Debug, Clone)]
pub enum JsonPayload {
    Object(Vec<(String, JsonField)>),
    NotObject,
}

pub open spec fn members_view(m: Seq<(String, JsonField)>) -> Seq<(Seq<char>, JsonFieldView)> {
    m.map_values(|e: (String, JsonField)| (e.0@, e.1@))
}

impl View for JsonPayload {
    /// `None` where the document is not an object.
    type V = Option<Seq<(Seq<char>, JsonFieldView)>>;

    open spec fn view(&self) -> Option<Seq<(Seq<char>, JsonFieldView)>> {
        match self {
            JsonPayload::Object(m) => Some(members_view(m@)),
            JsonPayload::NotObject => None,
        }
    }
}

/// The value of member `key`, the first one of that name.
pub open spec fn member_of(m: Seq<(Seq<char>, JsonFieldView)>, key: Seq<char>) -> Option<
    JsonFieldView,
>
    decreases m.len(),
{
    if m.len() == 0 {
        None
    } else if m[0].0 == key {
        Some(m[0].1)
    } else {
        member_of(m.drop_first(), key)
    }
}

proof fn lemma_member_of_skip(m: Seq<(Seq<char>, JsonFieldView)>, key: Seq<char>, i: int)
    requires
        0 <= i < m.len(),
        m[i].0 != key,
    ensures
        member_of(m.subrange(i, m.len() as int), key) == member_of(
            m.subrange(i + 1, m.len() as int),
            key,
        ),
{
    assert(m.subrange(i, m.len() as int).drop_first() =~= m.subrange(i + 1, m.len() as int));
}

/// Whether two strings hold the same characters.
pub fn same_text(a: &str, b: &str) -> (r: bool)
    ensures
        r == (a@ == b@),
{
    let n = a.unicode_len();
    if n != b.unicode_len() {
        return false;
    }
    let mut i: usize = 0;
    while i < n
        invariant
            n == a@.len(),
            n == b@.len(),
            0 <= i <= n,
            forall|j: int| 0 <= j < i ==> a@[j] == b@[j],
        decreases n - i,
    {
        if a.get_char(i) != b.get_char(i) {
            return false;
        }
        i = i + 1;
    }
    assert(a@ =~= b@);
    true
}

/// Looks up member `key` of an object.
pub fn find_member<'a>(m: &'a Vec<(String, JsonField)>, key: &str) -> (r: Option<&'a JsonField>)
    ensures
        match r {
            Some(f) => member_of(members_view(m@), key@) == Some(f@),
            None => member_of(members_view(m@), key@) is None,
        },
{
    let ghost mv = members_view(m@);
    assert(mv.subrange(0, mv.len() as int) =~= mv);
    let mut i: usize = 0;
    while i < m.len()
        invariant
            0 <= i <= m.len(),
            mv == members_view(m@),
            member_of(mv, key@) == member_of(mv.subrange(i as int, mv.len() as int), key@),
        decreases m.len() - i,
    {
        assert(mv[i as int] == (m@[i as int].0@, m@[i as int].1@));
        if same_text(m[i].0.as_str(), key) {
            assert(mv.subrange(i as int, mv.len() as int)[0] == mv[i as int]);
            return Some(&m[i].1);
        }
        proof {
            lemma_member_of_skip(mv, key@, i as int);
        }
        i = i + 1;
    }
    assert(mv.subrange(i as int, mv.len() as int).len() == 0);
    None
}

/// What serde_json reads from the bytes: the document's shape, or the
/// parser's diagnostic.
pub uninterp spec fn json_reading_of(b: Seq<u8>) -> Result<
    Option<Seq<(Seq<char>, JsonFieldView)>>,
    Seq<char>,
>;

/// The pretty-printed text that serde_json gives for the document in the
/// bytes, where they hold one.
pub uninterp spec fn json_text_of(b: Seq<u8>) -> Option<Seq<char>>;

/// A lowercase hexadecimal digit.
pub open spec fn hex_digit(d: int) -> char {
    if d < 10 {
        ((d + 48) as u8) as char
    } else {
        ((d + 87) as u8) as char
    }
}

/// How serde_json writes one character inside a string literal: quote and
/// backslash are escaped, the control characters below 0x20 by their short
/// form or `\u00XX`, everything else as it is.
pub open spec fn json_escape_char(c: char) -> Seq<char> {
    let u = c as u32;
    if u == 0x22 {
        seq!['\\', '"']
    } else if u == 0x5c {
        seq!['\\', '\\']
    } else if u == 0x08 {
        seq!['\\', 'b']
    } else if u == 0x09 {
        seq!['\\', 't']
    } else if u == 0x0a {
        seq!['\\', 'n']
    } else if u == 0x0c {
        seq!['\\', 'f']
    } else if u == 0x0d {
        seq!['\\', 'r']
    } else if u < 0x20 {
        seq!['\\', 'u', '0', '0', hex_digit(u as int / 16), hex_digit(u as int % 16)]
    } else {
        seq![c]
    }
}

pub open spec fn json_escaped(s: Seq<char>) -> Seq<char>
    decreases s.len(),
{
    if s.len() == 0 {
        Seq::empty()
    } else {
        json_escaped(s.drop_last()) + json_escape_char(s.last())
    }
}

/// The JSON string literal that serde_json prints for a string.
pub open spec fn json_quoted_of(s: Seq<char>) -> Seq<char> {
    seq!['"'] + json_escaped(s) + seq!['"']
}

/// Relies on serde_json::from_slice into a `Value`: the shape of the document,
/// or the text of the parser's error.
#[verifier::external_body]
pub(crate) fn parse_payload(b: &[u8]) -> (r: Result<JsonPayload, String>)
    ensures
        match r {
            Ok(p) => json_reading_of(b@) == Ok::<_, Seq<char>>(p@),
            Err(e) => json_reading_of(b@) == Err::<Option<Seq<(Seq<char>, JsonFieldView)>>, _>(e@),
        },
{
    match serde_json::from_slice::<serde_json::Value>(b) {
        Ok(serde_json::Value::Object(m)) => Ok(JsonPayload::Object(m.into_iter().map(|(k, v)| (k, match v {
            serde_json::Value::Null => JsonField::Null,
            serde_json::Value::String(s) => JsonField::Text(s),
            _ => JsonField::Other,
        })).collect())),
        Ok(_) => Ok(JsonPayload::NotObject),
        Err(e) => Err(e.to_string()),
    }
}

/// Relies on serde_json::from_slice into a `Value` and on
/// serde_json::to_string_pretty, which cannot fail on a `Value`: the document
/// pretty-printed, `None` where the bytes are not JSON.
#[verifier::external_body]
pub(crate) fn json_text(b: &[u8]) -> (r: Option<String>)
    ensures
        match r {
            Some(t) => json_text_of(b@) == Some(t@),
            None => json_text_of(b@) is None,
        },
{
    match serde_json::from_slice::<serde_json::Value>(b) {
        Ok(v) => serde_json::to_string_pretty(&v).ok(),
        Err(_) => None,
    }
}

/// Relies on serde_json::to_string on a `str`, which cannot fail: the string
/// between double quotes, escaped through serde_json's escape table.
#[verifier::external_body]
pub(crate) fn json_quote(s: &str) -> (r: String)
    ensures
        r@ == json_quoted_of(s@),
{
    serde_json::to_string(s).unwrap_or_default()
}

} // verus!
