//! Compact JSON text for the server's structured replies: string literals are
//! produced by `serde_json`, objects are assembled here with their keys in the
//! ascending order in which `serde_json` writes a `Map`.
use vstd::prelude::*;
use crate::text::{decimal, owned, push_char, push_str, u64_to_decimal};

verus! {

/// Lower-case hexadecimal digit for a value below sixteen.
pub open spec fn hex_char(d: nat) -> char {
    if d < 10 {
        (48 + d) as char
    } else {
        (87 + d) as char
    }
}

/// How `serde_json` writes one character inside a string literal.
pub open spec fn escape_char(c: char) -> Seq<char> {
    if c == '"' {
        seq!['\\', '"']
    } else if c == '\\' {
        seq!['\\', '\\']
    } else if c == '\u{8}' {
        seq!['\\', 'b']
    } else if c == '\t' {
        seq!['\\', 't']
    } else if c == '\n' {
        seq!['\\', 'n']
    } else if c == '\u{c}' {
        seq!['\\', 'f']
    } else if c == '\r' {
        seq!['\\', 'r']
    } else if (c as u32) < 0x20 {
        seq!['\\', 'u', '0', '0', hex_char(((c as u32) / 16) as nat), hex_char(((c as u32) % 16) as nat)]
    } else {
        seq![c]
    }
}

/// The escaped body of a JSON string literal.
pub open spec fn escape(s: Seq<char>) -> Seq<char>
    decreases s.len(),
{
    if s.len() == 0 {
        Seq::empty()
    } else {
        escape(s.drop_last()) + escape_char(s.last())
    }
}

/// A complete JSON string literal for `s`.
pub open spec fn quoted(s: Seq<char>) -> Seq<char> {
    seq!['"'] + escape(s) + seq!['"']
}

/// Trusted: `serde_json::to_string` on a `&str`. Its source writes a double
/// quote, then each character through the `ESCAPE` table (quote, backslash
/// and the C0 controls escaped, everything else as is), then a closing
/// quote; writing into a `Vec` cannot fail.
#[verifier::external_body]
pub(crate) fn json_quote(s: &str) -> (r: String)
    ensures
        r@ == quoted(s@),
{
    serde_json::to_string(s).unwrap()
}

/// A JSON value the server writes.
#[derive(Debug)]
pub enum JsonValue {
    Null,
    Bool(bool),
    Number(u64),
    Str(String),
    StrList(Vec<String>),
    /// JSON text written elsewhere, kept as it is.
    Raw(String),
}

/// A JSON value as text and numbers.
pub enum JsonView {
    Null,
    Bool(bool),
    Number(u64),
    Str(Seq<char>),
    StrList(Seq<Seq<char>>),
    Raw(Seq<char>),
}

impl JsonValue {
    /// The value as text and numbers.
    pub open spec fn view(&self) -> JsonView {
        match *self {
            JsonValue::Null => JsonView::Null,
            JsonValue::Bool(b) => JsonView::Bool(b),
            JsonValue::Number(n) => JsonView::Number(n),
            JsonValue::Str(s) => JsonView::Str(s@),
            JsonValue::StrList(items) => JsonView::StrList(texts(items@)),
            JsonValue::Raw(t) => JsonView::Raw(t@),
        }
    }
}

/// The texts of some strings.
pub open spec fn texts(v: Seq<String>) -> Seq<Seq<char>> {
    v.map_values(|x: String| x@)
}

/// The members of an object as text and values.
pub open spec fn entries_view(entries: Seq<(&str, JsonValue)>) -> Seq<(Seq<char>, JsonView)> {
    entries.map_values(|e: (&str, JsonValue)| (e.0@, e.1@))
}

/// Text of a list of strings, `"a","b"` (without brackets).
pub open spec fn list_text(items: Seq<Seq<char>>) -> Seq<char>
    decreases items.len(),
{
    if items.len() == 0 {
        Seq::empty()
    } else if items.len() == 1 {
        quoted(items[0])
    } else {
        list_text(items.drop_last()) + seq![','] + quoted(items.last())
    }
}

/// The text `serde_json` writes for a value.
pub open spec fn value_text(v: JsonView) -> Seq<char> {
    match v {
        JsonView::Null => "null"@,
        JsonView::Bool(b) => if b {
            "true"@
        } else {
            "false"@
        },
        JsonView::Number(n) => decimal(n as nat),
        JsonView::Str(s) => quoted(s),
        JsonView::StrList(items) => seq!['['] + list_text(items) + seq![']'],
        JsonView::Raw(t) => t,
    }
}

/// The text of one `"key":value` member.
pub open spec fn member_text(key: Seq<char>, v: JsonView) -> Seq<char> {
    quoted(key) + seq![':'] + value_text(v)
}

/// The members of an object, separated by commas.
pub open spec fn members_text(entries: Seq<(Seq<char>, JsonView)>) -> Seq<char>
    decreases entries.len(),
{
    if entries.len() == 0 {
        Seq::empty()
    } else if entries.len() == 1 {
        member_text(entries[0].0, entries[0].1)
    } else {
        members_text(entries.drop_last()) + seq![','] + member_text(entries.last().0, entries.last().1)
    }
}

/// The text of a JSON object with the given members, in the given order.
pub open spec fn object_text(entries: Seq<(Seq<char>, JsonView)>) -> Seq<char> {
    seq!['{'] + members_text(entries) + seq!['}']
}

/// The text of a list of strings.
fn render_list(items: &Vec<String>) -> (r: String)
    ensures
        r@ == list_text(texts(items@)),
{
    let mut r = String::new();
    let mut i: usize = 0;
    while i < items.len()
        invariant
            i <= items.len(),
            r@ == list_text(texts(items@.take(i as int))),
        decreases items.len() - i,
    {
        assert(texts(items@.take(i + 1)).drop_last() =~= texts(items@.take(i as int)));
        if i > 0 {
            push_char(&mut r, ',');
        }
        let q = json_quote(items[i].as_str());
        push_str(&mut r, q.as_str());
        i = i + 1;
    }
    assert(items@.take(items.len() as int) == items@);
    r
}

/// The text of one value.
pub fn render_value(v: &JsonValue) -> (r: String)
    ensures
        r@ == value_text(v@),
{
    match v {
        JsonValue::Null => owned("null"),
        JsonValue::Bool(b) => if *b {
            owned("true")
        } else {
            owned("false")
        },
        JsonValue::Number(n) => u64_to_decimal(*n),
        JsonValue::Str(s) => json_quote(s.as_str()),
        JsonValue::StrList(items) => {
            let mut r = String::new();
            push_char(&mut r, '[');
            let body = render_list(items);
            push_str(&mut r, body.as_str());
            push_char(&mut r, ']');
            r
        },
        JsonValue::Raw(t) => owned(t.as_str()),
    }
}

/// Whether text `a` comes strictly before text `b`, character by character
/// (the order in which `serde_json` writes the keys of an object).
pub open spec fn text_less(a: Seq<char>, b: Seq<char>) -> bool
    decreases a.len(),
{
    if b.len() == 0 {
        false
    } else if a.len() == 0 {
        true
    } else if a[0] != b[0] {
        (a[0] as u32) < (b[0] as u32)
    } else {
        text_less(a.skip(1), b.skip(1))
    }
}

/// Whether the keys of an object's members are in strictly ascending order.
pub open spec fn keys_ascending(entries: Seq<(Seq<char>, JsonView)>) -> bool
    decreases entries.len(),
{
    entries.len() <= 1 || (text_less(entries[entries.len() - 2].0, entries.last().0) && keys_ascending(
        entries.drop_last(),
    ))
}

/// The text of a JSON object whose members are given in order; the keys
/// must ascend, as `serde_json` writes the members of an object.
pub fn render_object(entries: &Vec<(&str, JsonValue)>) -> (r: String)
    requires
        keys_ascending(entries_view(entries@)),
    ensures
        r@ == object_text(entries_view(entries@)),
{
    let mut body = String::new();
    let mut i: usize = 0;
    while i < entries.len()
        invariant
            i <= entries.len(),
            body@ == members_text(entries_view(entries@.take(i as int))),
        decreases entries.len() - i,
    {
        assert(entries_view(entries@.take(i + 1)).drop_last() =~= entries_view(entries@.take(i as int)));
        if i > 0 {
            push_char(&mut body, ',');
        }
        let key = json_quote(entries[i].0);
        push_str(&mut body, key.as_str());
        push_char(&mut body, ':');
        let val = render_value(&entries[i].1);
        push_str(&mut body, val.as_str());
        i = i + 1;
    }
    assert(entries@.take(entries.len() as int) == entries@);
    let mut r = String::new();
    push_char(&mut r, '{');
    push_str(&mut r, body.as_str());
    push_char(&mut r, '}');
    r
}

} // verus!
