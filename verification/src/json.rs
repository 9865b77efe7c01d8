//! The wire format of the fetch bridge.
//!
//! Request bodies arrive as UTF-8 JSON; the single field the bridge reads is
//! the string `method`.  Outgoing request options are serialized as the JSON
//! object `{"method":"..."}` with the standard JSON string escapes.  The
//! serializer is verified against [`json_escaped`]; parsing stays with
//! `serde_json` behind a trusted wrapper.

use vstd::prelude::*;
use vstd::string::StrSliceExecFns;
use vstd::utf8::{decode_utf8, valid_utf8};

verus! {

/// The string field named `key` of the JSON object encoded by `bytes`:
/// `Some` of the field's characters when `bytes` is a JSON document whose
/// top level carries a string under `key`, `None` otherwise.  The parse is a
/// function of the bytes and the key alone.
pub uninterp spec fn json_string_field(bytes: Seq<u8>, key: Seq<char>) -> Option<Seq<char>>;

/// Relies on `serde_json::from_slice::<serde_json::Value>` and on
/// `serde_json::Value::get` and `serde_json::Value::as_str`: parsing a byte
/// slice and looking up a string field under a key depend on the bytes and
/// the key alone.
#[verifier::external_body]
pub(crate) fn decode_string_field(bytes: &Vec<u8>, key: &str) -> (r: Option<String>)
    ensures
        r matches Some(v) ==> json_string_field(bytes@, key@) == Some(v@),
        r is None ==> json_string_field(bytes@, key@) is None,
{
    match serde_json::from_slice::<serde_json::Value>(bytes.as_slice()) {
        Ok(doc) => match doc.get(key) {
            Some(field) => field.as_str().map(|s| s.to_string()),
            None => None,
        },
        Err(_) => None,
    }
}

/// Relies on `String::from_utf8`: succeeds exactly on valid UTF-8 input and
/// returns the string those bytes encode.
#[verifier::external_body]
pub(crate) fn utf8_to_string(bytes: Vec<u8>) -> (r: Option<String>)
    ensures
        r matches Some(s) ==> valid_utf8(bytes@) && s@ == decode_utf8(bytes@),
        r is None ==> !valid_utf8(bytes@),
{
    String::from_utf8(bytes).ok()
}

/// Relies on `String::push`: appends the one character to the end.
#[verifier::external_body]
fn push_char(s: &mut String, c: char)
    ensures
        final(s)@ == old(s)@.push(c),
{
    s.push(c);
}

/// The lower-case hexadecimal digit of a value below sixteen.
pub open spec fn hex_digit(v: int) -> char
    recommends
        0 <= v < 16,
{
    if v == 0 {
        '0'
    } else if v == 1 {
        '1'
    } else if v == 2 {
        '2'
    } else if v == 3 {
        '3'
    } else if v == 4 {
        '4'
    } else if v == 5 {
        '5'
    } else if v == 6 {
        '6'
    } else if v == 7 {
        '7'
    } else if v == 8 {
        '8'
    } else if v == 9 {
        '9'
    } else if v == 10 {
        'a'
    } else if v == 11 {
        'b'
    } else if v == 12 {
        'c'
    } else if v == 13 {
        'd'
    } else if v == 14 {
        'e'
    } else {
        'f'
    }
}

/// What a character becomes inside a JSON string: itself, a two-character
/// escape for quote, backslash and the named controls, and `\u00xy` with
/// lower-case hex digits for the remaining control characters.
pub open spec fn json_escaped_char(c: char) -> Seq<char> {
    if c == '"' {
        seq!['\\', '"']
    } else if c == '\\' {
        seq!['\\', '\\']
    } else if c == '\u{08}' {
        seq!['\\', 'b']
    } else if c == '\t' {
        seq!['\\', 't']
    } else if c == '\n' {
        seq!['\\', 'n']
    } else if c == '\u{0C}' {
        seq!['\\', 'f']
    } else if c == '\r' {
        seq!['\\', 'r']
    } else if (c as u32) < 32 {
        seq!['\\', 'u', '0', '0', hex_digit((c as u32) as int / 16), hex_digit((c as u32) as int % 16)]
    } else {
        seq![c]
    }
}

/// A whole character sequence escaped for use inside a JSON string.
pub open spec fn json_escaped(s: Seq<char>) -> Seq<char>
    decreases s.len(),
{
    if s.len() == 0 {
        Seq::empty()
    } else {
        json_escaped_char(s[0]) + json_escaped(s.drop_first())
    }
}

/// Escaping a concatenation escapes the parts in place.
proof fn lemma_json_escaped_concat(a: Seq<char>, b: Seq<char>)
    ensures
        json_escaped(a + b) == json_escaped(a) + json_escaped(b),
    decreases a.len(),
{
    if a.len() == 0 {
        assert(a + b =~= b);
        assert(json_escaped(a) + json_escaped(b) =~= json_escaped(b));
    } else {
        assert((a + b).drop_first() =~= a.drop_first() + b);
        lemma_json_escaped_concat(a.drop_first(), b);
        assert(json_escaped(a + b) =~= json_escaped(a) + json_escaped(b));
    }
}

/// Escaping one more character appends that character's escape.
proof fn lemma_json_escaped_snoc(s: Seq<char>, i: int)
    requires
        0 <= i < s.len(),
    ensures
        json_escaped(s.take(i + 1)) == json_escaped(s.take(i)) + json_escaped_char(s[i]),
{
    let one = seq![s[i]];
    assert(s.take(i + 1) =~= s.take(i) + one);
    lemma_json_escaped_concat(s.take(i), one);
    assert(one.drop_first() =~= Seq::<char>::empty());
    assert(json_escaped(one) == json_escaped_char(s[i]) + json_escaped(Seq::<char>::empty()));
    assert(json_escaped(Seq::<char>::empty()) =~= Seq::<char>::empty());
    assert(json_escaped(one) =~= json_escaped_char(s[i]));
}

/// The lower-case hexadecimal digit of `v`.
fn hex_digit_char(v: u32) -> (r: char)
    requires
        v < 16,
    ensures
        r == hex_digit(v as int),
{
    match v {
        0 => '0',
        1 => '1',
        2 => '2',
        3 => '3',
        4 => '4',
        5 => '5',
        6 => '6',
        7 => '7',
        8 => '8',
        9 => '9',
        10 => 'a',
        11 => 'b',
        12 => 'c',
        13 => 'd',
        14 => 'e',
        _ => 'f',
    }
}

/// Appends the escape of one character to `out`.
fn push_escaped_char(out: &mut String, c: char)
    ensures
        final(out)@ == old(out)@ + json_escaped_char(c),
{
    if c == '"' {
        push_char(out, '\\');
        push_char(out, '"');
    } else if c == '\\' {
        push_char(out, '\\');
        push_char(out, '\\');
    } else if c == '\u{08}' {
        push_char(out, '\\');
        push_char(out, 'b');
    } else if c == '\t' {
        push_char(out, '\\');
        push_char(out, 't');
    } else if c == '\n' {
        push_char(out, '\\');
        push_char(out, 'n');
    } else if c == '\u{0C}' {
        push_char(out, '\\');
        push_char(out, 'f');
    } else if c == '\r' {
        push_char(out, '\\');
        push_char(out, 'r');
    } else if (c as u32) < 32 {
        push_char(out, '\\');
        push_char(out, 'u');
        push_char(out, '0');
        push_char(out, '0');
        push_char(out, hex_digit_char((c as u32) / 16));
        push_char(out, hex_digit_char((c as u32) % 16));
    } else {
        push_char(out, c);
    }
    proof {
        assert(final(out)@ =~= old(out)@ + json_escaped_char(c));
    }
}

/// Escapes a string for use inside a JSON string literal, exactly as the
/// standard compact JSON serializer does.
pub fn escape_json_string(s: &str) -> (r: String)
    ensures
        r@ == json_escaped(s@),
{
    let n: usize = s.unicode_len();
    let mut out = String::new();
    let mut i: usize = 0;
    while i < n
        invariant
            i <= n,
            n == s@.len(),
            out@ == json_escaped(s@.take(i as int)),
        decreases n - i,
    {
        let c = s.get_char(i);
        push_escaped_char(&mut out, c);
        proof {
            lemma_json_escaped_snoc(s@, i as int);
        }
        i = i + 1;
    }
    proof {
        assert(s@.take(n as int) =~= s@);
    }
    out
}

} // verus!
