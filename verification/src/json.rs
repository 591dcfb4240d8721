//! JSON string literals.
use vstd::prelude::*;
use vstd::string::*;
use crate::text::{hex_char, hex_digit_str};

verus! {

/// The JSON text that stands for one character inside a string literal:
/// the quote, the backslash and the control characters are escaped, the
/// common controls by their short forms and the others as `\u00XX`.
pub open spec fn json_escape(c: char) -> Seq<char> {
    if c == '"' {
        seq!['\\', '"']
    } else if c == '\\' {
        seq!['\\', '\\']
    } else if c == '\x08' {
        seq!['\\', 'b']
    } else if c == '\t' {
        seq!['\\', 't']
    } else if c == '\n' {
        seq!['\\', 'n']
    } else if c == '\x0c' {
        seq!['\\', 'f']
    } else if c == '\r' {
        seq!['\\', 'r']
    } else if (c as u32) < 0x20 {
        seq!['\\', 'u', '0', '0', hex_char(((c as u32) / 16) as int), hex_char(((c as u32) % 16) as int)]
    } else {
        seq![c]
    }
}

/// The escaped body of a JSON string literal for `s`.
pub open spec fn json_escaped(s: Seq<char>) -> Seq<char>
    decreases s.len(),
{
    if s.len() == 0 {
        Seq::empty()
    } else {
        json_escaped(s.drop_last()) + json_escape(s.last())
    }
}

/// The JSON string literal for `s`, quotes included.
pub open spec fn json_string(s: Seq<char>) -> Seq<char> {
    seq!['"'] + json_escaped(s) + seq!['"']
}

/// The JSON text of an optional string: `null` or its string literal.
pub open spec fn json_opt_string(s: Option<Seq<char>>) -> Seq<char> {
    match s {
        Some(t) => json_string(t),
        None => "null"@,
    }
}

/// The JSON text of a boolean.
pub open spec fn json_bool(b: bool) -> Seq<char> {
    if b {
        "true"@
    } else {
        "false"@
    }
}

/// The value of a hexadecimal digit character, in either case.
pub open spec fn hex_char_value(c: char) -> Option<int> {
    if '0' <= c && c <= '9' {
        Some(c as int - '0' as int)
    } else if 'a' <= c && c <= 'f' {
        Some(c as int - 'a' as int + 10)
    } else if 'A' <= c && c <= 'F' {
        Some(c as int - 'A' as int + 10)
    } else {
        None
    }
}

/// The character a two-character JSON escape `\e` stands for.
pub open spec fn json_short_escape(e: char) -> Option<char> {
    if e == '"' {
        Some('"')
    } else if e == '\\' {
        Some('\\')
    } else if e == '/' {
        Some('/')
    } else if e == 'b' {
        Some('\x08')
    } else if e == 'f' {
        Some('\x0c')
    } else if e == 'n' {
        Some('\n')
    } else if e == 'r' {
        Some('\r')
    } else if e == 't' {
        Some('\t')
    } else {
        None
    }
}

/// The code unit of the four hexadecimal digits `t[2..6]` of a `\uXXXX` escape.
pub open spec fn json_unicode_escape(t: Seq<char>) -> Option<int> {
    match (hex_char_value(t[2]), hex_char_value(t[3]), hex_char_value(t[4]), hex_char_value(t[5])) {
        (Some(a), Some(b), Some(c), Some(d)) => Some(((a * 16 + b) * 16 + c) * 16 + d),
        _ => None,
    }
}

/// Decodes the body of a JSON string literal (the text between its quotes)
/// as the JSON grammar reads it: escapes `\"`, `\\`, `\/`, `\b`, `\f`, `\n`,
/// `\r`, `\t` and `\uXXXX` (outside the surrogate range), any other character
/// but an unescaped quote or a control character standing for itself;
/// nothing when the body is not well formed.
pub open spec fn json_unescaped(t: Seq<char>) -> Option<Seq<char>>
    decreases t.len(),
{
    if t.len() == 0 {
        Some(Seq::empty())
    } else if t[0] == '\\' {
        if t.len() < 2 {
            None
        } else if json_short_escape(t[1]) is Some {
            match json_unescaped(t.subrange(2, t.len() as int)) {
                Some(rest) => Some(seq![json_short_escape(t[1])->0] + rest),
                None => None,
            }
        } else if t[1] == 'u' && t.len() >= 6 && json_unicode_escape(t) is Some
            && !(0xd800 <= json_unicode_escape(t)->0 && json_unicode_escape(t)->0 <= 0xdfff) {
            match json_unescaped(t.subrange(6, t.len() as int)) {
                Some(rest) => Some(seq![(json_unicode_escape(t)->0) as char] + rest),
                None => None,
            }
        } else {
            None
        }
    } else if t[0] == '"' || (t[0] as u32) < 0x20 {
        None
    } else {
        match json_unescaped(t.drop_first()) {
            Some(rest) => Some(seq![t[0]] + rest),
            None => None,
        }
    }
}

/// The text a JSON string literal stands for; nothing when `t` is not one.
pub open spec fn json_string_value(t: Seq<char>) -> Option<Seq<char>> {
    if t.len() >= 2 && t[0] == '"' && t[t.len() - 1] == '"' {
        json_unescaped(t.subrange(1, t.len() - 1))
    } else {
        None
    }
}

/// A lowercase hex digit reads back as its value.
proof fn lemma_hex_char_value(n: int)
    requires
        0 <= n < 16,
    ensures
        hex_char_value(hex_char(n)) == Some(n),
{
    if n == 0 {} else if n == 1 {} else if n == 2 {} else if n == 3 {}
    else if n == 4 {} else if n == 5 {} else if n == 6 {} else if n == 7 {}
    else if n == 8 {} else if n == 9 {} else if n == 10 {} else if n == 11 {}
    else if n == 12 {} else if n == 13 {} else if n == 14 {} else {}
}

/// Escaping works character by character, from the front too.
proof fn lemma_json_escaped_front(s: Seq<char>)
    requires
        s.len() > 0,
    ensures
        json_escaped(s) == json_escape(s[0]) + json_escaped(s.drop_first()),
    decreases s.len(),
{
    if s.len() == 1 {
        assert(s.drop_last().len() == 0);
        assert(s.drop_first().len() == 0);
        assert(json_escaped(s.drop_last()) == Seq::<char>::empty());
        assert(json_escaped(s.drop_first()) == Seq::<char>::empty());
        assert(s.last() == s[0]);
        assert(Seq::<char>::empty() + json_escape(s[0]) =~= json_escape(s[0]) + Seq::<char>::empty());
    } else {
        lemma_json_escaped_front(s.drop_last());
        assert(s.drop_last().drop_first() == s.drop_first().drop_last());
        assert(s.drop_first().last() == s.last());
        assert(s.drop_last()[0] == s[0]);
        let a = json_escape(s[0]);
        let m = json_escaped(s.drop_first().drop_last());
        let l = json_escape(s.last());
        assert(json_escaped(s.drop_first()) == m + l);
        assert(json_escaped(s) == (a + m) + l);
        assert((a + m) + l =~= a + (m + l));
    }
}

/// One escaped character followed by more text decodes as that character
/// followed by what the text decodes to.
proof fn lemma_json_unescape_one(c: char, rest: Seq<char>)
    ensures
        json_unescaped(json_escape(c) + rest) == match json_unescaped(rest) {
            Some(r) => Some(seq![c] + r),
            None => None::<Seq<char>>,
        },
{
    let t = json_escape(c) + rest;
    if c == '"' || c == '\\' || c == '\x08' || c == '\t' || c == '\n' || c == '\x0c' || c == '\r' {
        assert(t.subrange(2, t.len() as int) == rest);
    } else if (c as u32) < 0x20 {
        let u = c as u32;
        lemma_hex_char_value((u / 16) as int);
        lemma_hex_char_value((u % 16) as int);
        assert(t[2] == '0' && t[3] == '0');
        assert(json_unicode_escape(t) == Some(u as int));
        assert(t.subrange(6, t.len() as int) == rest);
        vstd::utf8::char_u32_cast(c, u);
    } else {
        assert(t.drop_first() == rest);
    }
}

/// What JSON escaping writes decodes back to the text it escaped.
pub proof fn lemma_json_escaped_reads_back(s: Seq<char>)
    ensures
        json_unescaped(json_escaped(s)) == Some(s),
    decreases s.len(),
{
    if s.len() > 0 {
        lemma_json_escaped_front(s);
        lemma_json_escaped_reads_back(s.drop_first());
        lemma_json_unescape_one(s[0], json_escaped(s.drop_first()));
        assert(seq![s[0]] + s.drop_first() == s);
    }
}

/// A JSON string literal written for a text reads back as that text.
pub proof fn lemma_json_string_reads_back(s: Seq<char>)
    ensures
        json_string_value(json_string(s)) == Some(s),
{
    lemma_json_escaped_reads_back(s);
    let t = json_string(s);
    assert(t.subrange(1, t.len() - 1) == json_escaped(s));
}

/// Appends the JSON escape of one character of `s` at `i`.
fn append_escaped_char(out: &mut String, s: &str, i: usize, c: char)
    requires
        i < s@.len(),
        i < usize::MAX,
        s@[i as int] == c,
    ensures
        final(out)@ == old(out)@ + json_escape(c),
{
    proof {
        reveal_strlit("\\\"");
        reveal_strlit("\\\\");
        reveal_strlit("\\b");
        reveal_strlit("\\t");
        reveal_strlit("\\n");
        reveal_strlit("\\f");
        reveal_strlit("\\r");
        reveal_strlit("\\u00");
    }
    if c == '"' {
        out.append("\\\"");
    } else if c == '\\' {
        out.append("\\\\");
    } else if c == '\x08' {
        out.append("\\b");
    } else if c == '\t' {
        out.append("\\t");
    } else if c == '\n' {
        out.append("\\n");
    } else if c == '\x0c' {
        out.append("\\f");
    } else if c == '\r' {
        out.append("\\r");
    } else if (c as u32) < 0x20 {
        let code = c as u32;
        out.append("\\u00");
        out.append(hex_digit_str((code / 16) as u8));
        out.append(hex_digit_str((code % 16) as u8));
    } else {
        out.append(s.substring_char(i, i + 1));
    }
}

/// Renders `s` as a JSON string literal, quotes included.
pub fn json_quote(s: &str) -> (r: String)
    ensures
        r@ == json_string(s@),
{
    let mut out = String::new();
    proof {
        reveal_strlit("\"");
    }
    out.append("\"");
    let n = s.unicode_len();
    for i in 0..n
        invariant
            n == s@.len(),
            out@ == seq!['"'] + json_escaped(s@.take(i as int)),
    {
        let c = s.get_char(i);
        append_escaped_char(&mut out, s, i, c);
        assert(s@.take(i + 1).drop_last() == s@.take(i as int));
    }
    assert(s@.take(n as int) == s@);
    out.append("\"");
    out
}

/// Appends the JSON text of an optional string.
pub fn append_json_opt_string(out: &mut String, s: &Option<String>)
    ensures
        final(out)@ == old(out)@ + json_opt_string(match s { Some(t) => Some(t@), None => None }),
{
    match s {
        Some(t) => {
            let q = json_quote(t.as_str());
            out.append(q.as_str());
        },
        None => {
            out.append("null");
        },
    }
}

/// Appends the JSON text of a boolean.
pub fn append_json_bool(out: &mut String, b: bool)
    ensures
        final(out)@ == old(out)@ + json_bool(b),
{
    if b {
        out.append("true");
    } else {
        out.append("false");
    }
}

} // verus!

verus! {

/// What `serde_json` makes of a JSON text read as a `serde_json::Value` and
/// written back with `serde_json::to_string`: the compact text of the value
/// (object keys in sorted order), or nothing where the text is not JSON.
pub uninterp spec fn json_canonical(text: Seq<char>) -> Option<Seq<char>>;

/// Reads `text` with `serde_json::from_str::<serde_json::Value>` and writes the
/// value back with `serde_json::to_string`; `None` where the text is not
/// JSON. The contract names the result.
#[verifier::external_body]
pub(crate) fn canonical_json(text: &str) -> (r: Option<String>)
    ensures
        opt_seq(r) == json_canonical(text@),
{
    match serde_json::from_str::<serde_json::Value>(text) {
        Ok(value) => Some(value.to_string()),
        Err(_) => None,
    }
}

/// The text of an optional string.
pub open spec fn opt_seq(s: Option<String>) -> Option<Seq<char>> {
    match s {
        Some(t) => Some(t@),
        None => None,
    }
}

} // verus!
