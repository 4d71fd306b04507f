//! The calls into `serde_json` that the protocol and the settings window make
//! on plain values. Their contracts are trusted: each states or names what the
//! call returns, and only what the crate's source shows. How `serde_json`
//! writes a string is stated below, with what the text stands for when read
//! back as JSON.
use vstd::prelude::*;

verus! {

/// `serde_json::Error`, carried through unread.
#[verifier::external_type_specification]
#[verifier::external_body]
pub struct ExJsonError(serde_json::Error);

/// The lower-case hexadecimal digit of `d < 16`.
pub open spec fn hex_digit(d: int) -> char {
    if d < 10 {
        (('0' as int) + d) as char
    } else {
        (('a' as int) + d - 10) as char
    }
}

/// How `serde_json` writes the character `c` inside a string: `"` and `\`
/// behind a backslash; backspace, tab, line feed, form feed and carriage
/// return as `\b`, `\t`, `\n`, `\f`, `\r`; any other character below
/// U+0020 as `\u00` and two lower-case hexadecimal digits; anything else as is.
pub open spec fn escaped_char(c: char) -> Seq<char> {
    if c == '"' {
        seq!['\\', '"']
    } else if c == '\\' {
        seq!['\\', '\\']
    } else if c == '\u{8}' {
        seq!['\\', 'b']
    } else if c == '\t' {
        seq!['\\', 't']
    } else if c == '\n' {
        seq!['\\', 'n']
    } else if c == '\u{c}' {
        seq!['\\', 'f']
    } else if c == '\r' {
        seq!['\\', 'r']
    } else if (c as int) < 0x20 {
        seq!['\\', 'u', '0', '0', hex_digit((c as int) / 16), hex_digit((c as int) % 16)]
    } else {
        seq![c]
    }
}

/// The characters of `s`, each written as `escaped_char` writes it.
pub open spec fn escaped(s: Seq<char>) -> Seq<char>
    decreases s.len(),
{
    if s.len() == 0 {
        Seq::empty()
    } else {
        escaped_char(s[0]) + escaped(s.drop_first())
    }
}

/// The JSON text that `serde_json::to_string` writes for the string `s`:
/// `s` escaped, between double quotes.
pub open spec fn json_text_of_str(s: Seq<char>) -> Seq<char> {
    seq!['"'] + escaped(s) + seq!['"']
}

/// The quoted strings of `items`, separated by commas.
pub open spec fn joined_strs(items: Seq<Seq<char>>) -> Seq<char>
    decreases items.len(),
{
    if items.len() == 0 {
        Seq::empty()
    } else if items.len() == 1 {
        json_text_of_str(items[0])
    } else {
        json_text_of_str(items[0]) + seq![','] + joined_strs(items.drop_first())
    }
}

/// The JSON text that `serde_json::to_string` writes for a slice of strings:
/// the quoted strings, separated by commas, between square brackets.
pub open spec fn json_text_of_strs(items: Seq<Seq<char>>) -> Seq<char> {
    seq!['['] + joined_strs(items) + seq![']']
}

/// The value of the hexadecimal digit `c`, in either case.
pub open spec fn hex_value(c: char) -> Option<int> {
    if '0' <= c <= '9' {
        Some(c as int - '0' as int)
    } else if 'a' <= c <= 'f' {
        Some(c as int - 'a' as int + 10)
    } else if 'A' <= c <= 'F' {
        Some(c as int - 'A' as int + 10)
    } else {
        None
    }
}

/// The character that a one-letter escape `\c` of JSON stands for.
pub open spec fn short_escape(c: char) -> Option<char> {
    if c == '"' {
        Some('"')
    } else if c == '\\' {
        Some('\\')
    } else if c == '/' {
        Some('/')
    } else if c == 'b' {
        Some('\u{8}')
    } else if c == 'f' {
        Some('\u{c}')
    } else if c == 'n' {
        Some('\n')
    } else if c == 'r' {
        Some('\r')
    } else if c == 't' {
        Some('\t')
    } else {
        None
    }
}

/// The code point of the escape `\uXXXX` at the start of `t`, when it is one
/// outside the surrogate range.
pub open spec fn unicode_escape(t: Seq<char>) -> Option<char> {
    if t.len() >= 6 && t[0] == '\\' && t[1] == 'u' && hex_value(t[2]) is Some && hex_value(
        t[3],
    ) is Some && hex_value(t[4]) is Some && hex_value(t[5]) is Some {
        let v = hex_value(t[2]).unwrap() * 4096 + hex_value(t[3]).unwrap() * 256 + hex_value(
            t[4],
        ).unwrap() * 16 + hex_value(t[5]).unwrap();
        if 0xd800 <= v <= 0xdfff {
            None
        } else {
            Some(v as char)
        }
    } else {
        None
    }
}

/// The characters that the body of a JSON string stands for (RFC 8259): a
/// backslash starts an escape, and a double quote or a character below U+0020
/// may not stand alone. Escapes of surrogates, which come in pairs, are not read.
pub open spec fn unescaped(t: Seq<char>) -> Option<Seq<char>>
    decreases t.len(),
{
    if t.len() == 0 {
        Some(Seq::empty())
    } else if t[0] == '\\' {
        if t.len() >= 2 && short_escape(t[1]) is Some {
            match unescaped(t.skip(2)) {
                Some(rest) => Some(seq![short_escape(t[1]).unwrap()] + rest),
                None => None,
            }
        } else if unicode_escape(t) is Some {
            match unescaped(t.skip(6)) {
                Some(rest) => Some(seq![unicode_escape(t).unwrap()] + rest),
                None => None,
            }
        } else {
            None
        }
    } else if t[0] == '"' || (t[0] as int) < 0x20 {
        None
    } else {
        match unescaped(t.skip(1)) {
            Some(rest) => Some(seq![t[0]] + rest),
            None => None,
        }
    }
}

/// The string that a JSON string literal `t` stands for.
pub open spec fn json_string_value(t: Seq<char>) -> Option<Seq<char>> {
    if t.len() >= 2 && t[0] == '"' && t[t.len() - 1] == '"' {
        unescaped(t.subrange(1, t.len() - 1))
    } else {
        None
    }
}

proof fn lemma_hex_round_trip(d: int)
    requires
        0 <= d < 16,
    ensures
        hex_value(hex_digit(d)) == Some(d),
{
}

proof fn lemma_escaped_char_reads_back(c: char, rest: Seq<char>)
    ensures
        unescaped(escaped_char(c) + rest) == match unescaped(rest) {
            Some(r) => Some(seq![c] + r),
            None => None::<Seq<char>>,
        },
{
    let t = escaped_char(c) + rest;
    if c == '"' || c == '\\' || c == '\u{8}' || c == '\t' || c == '\n' || c == '\u{c}' || c
        == '\r' {
        assert(t.skip(2) =~= rest);
    } else if (c as int) < 0x20 {
        let v = c as int;
        lemma_hex_round_trip(v / 16);
        lemma_hex_round_trip(v % 16);
        assert(t.skip(6) =~= rest);
        assert(short_escape(t[1]) is None);
        assert(v == 0 * 4096 + 0 * 256 + (v / 16) * 16 + v % 16);
        assert((v as char) == c);
    } else {
        assert(t.skip(1) =~= rest);
    }
}

proof fn lemma_escaped_reads_back(s: Seq<char>)
    ensures
        unescaped(escaped(s)) == Some(s),
    decreases s.len(),
{
    if s.len() == 0 {
    } else {
        lemma_escaped_reads_back(s.drop_first());
        lemma_escaped_char_reads_back(s[0], escaped(s.drop_first()));
        assert(seq![s[0]] + s.drop_first() =~= s);
    }
}

/// Every string can be read back from the JSON text that `serde_json` writes for it.
pub proof fn lemma_json_text_of_str_reads_back(s: Seq<char>)
    ensures
        json_string_value(json_text_of_str(s)) == Some(s),
{
    let t = json_text_of_str(s);
    lemma_escaped_reads_back(s);
    assert(t.subrange(1, t.len() - 1) =~= escaped(s));
}

/// The string member `key` of the JSON text `text`: `Some(v)` when
/// `serde_json::from_str::<serde_json::Value>` accepts `text`, the value has a
/// member `key` (`Value::get`) and that member is a string `v`
/// (`Value::as_str`); `None` otherwise.
pub uninterp spec fn json_member_str(text: Seq<char>, key: Seq<char>) -> Option<Seq<char>>;

/// Calls `serde_json::to_string` on a string slice. The contract claims that
/// the call succeeds and gives its text, as `format_escaped_str` writes it. In the crate's source the only error
/// that serialising a `str` can meet is one of the writer, and the writer is a
/// `Vec<u8>`, which never fails.
#[verifier::external_body]
pub(crate) fn quote(s: &str) -> (r: Result<String, serde_json::Error>)
    ensures
        r is Ok,
        r matches Ok(t) ==> t@ == json_text_of_str(s@),
{
    serde_json::to_string(s)
}

/// Calls `serde_json::to_string` on a slice of strings. The contract claims
/// that the call succeeds, for the same reason as `quote`, and gives its text:
/// the compact formatter writes `[`, the strings separated by `,`, and `]`.
#[verifier::external_body]
pub(crate) fn quote_all(items: &[String]) -> (r: Result<String, serde_json::Error>)
    ensures
        r is Ok,
        r matches Ok(t) ==> t@ == json_text_of_strs(items.deep_view()),
{
    serde_json::to_string(items)
}

/// Parses `text` with `serde_json::from_str::<serde_json::Value>`, then reads
/// its member `key` with `Value::get` and `Value::as_str`. The contract names
/// the result and claims nothing more of it.
#[verifier::external_body]
pub(crate) fn member_str(text: &str, key: &str) -> (r: Option<String>)
    ensures
        r.deep_view() == json_member_str(text@, key@),
{
    let value = match serde_json::from_str::<serde_json::Value>(text) {
        Ok(value) => value,
        Err(_) => return None,
    };
    match value.get(key) {
        Some(member) => match member.as_str() {
            Some(v) => Some(v.to_string()),
            None => None,
        },
        None => None,
    }
}

} // verus!
