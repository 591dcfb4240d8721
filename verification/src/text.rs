//! Text building blocks: character access, hexadecimal and decimal
//! rendering, decimal parsing, ASCII case folding and prefixes.
use vstd::prelude::*;
use vstd::string::*;

verus! {

/// The lowercase hexadecimal digits, in order of value.
pub open spec fn hex_digits() -> Seq<char> {
    seq!['0', '1', '2', '3', '4', '5', '6', '7', '8', '9', 'a', 'b', 'c', 'd', 'e', 'f']
}

/// The lowercase hexadecimal digit for a value below 16.
pub open spec fn hex_char(n: int) -> char {
    hex_digits()[n]
}

/// The two lowercase hexadecimal digits of a byte, high nibble first.
pub open spec fn hex_byte(b: u8) -> Seq<char> {
    seq![hex_char((b / 16) as int), hex_char((b % 16) as int)]
}

/// The lowercase hexadecimal text of a byte sequence, two digits per byte.
pub open spec fn hex_text(bytes: Seq<u8>) -> Seq<char>
    decreases bytes.len(),
{
    if bytes.len() == 0 {
        Seq::empty()
    } else {
        hex_text(bytes.drop_last()) + hex_byte(bytes.last())
    }
}

/// A character is a decimal digit.
pub open spec fn is_digit(c: char) -> bool {
    '0' <= c && c <= '9'
}

/// The value of a decimal digit character.
pub open spec fn digit_value(c: char) -> nat {
    (c as int - '0' as int) as nat
}

/// The decimal digit character of a value below 10.
pub open spec fn decimal_char(n: int) -> char {
    hex_digits()[n]
}

/// The decimal text of a natural number, without leading zeros.
pub open spec fn decimal_text(n: nat) -> Seq<char>
    decreases n,
{
    if n < 10 {
        seq![decimal_char(n as int)]
    } else {
        decimal_text(n / 10) + seq![decimal_char((n % 10) as int)]
    }
}

/// The value of a sequence of decimal digits read most significant first.
pub open spec fn digits_value(s: Seq<char>) -> nat
    decreases s.len(),
{
    if s.len() == 0 {
        0
    } else {
        digits_value(s.drop_last()) * 10 + digit_value(s.last())
    }
}

/// `s` without one leading `+` sign, if it has one.
pub open spec fn sign_stripped(s: Seq<char>) -> Seq<char> {
    if s.len() > 0 && s[0] == '+' {
        s.drop_first()
    } else {
        s
    }
}

/// Every character of `s` is a decimal digit.
pub open spec fn all_digits(s: Seq<char>) -> bool {
    forall|i: int| 0 <= i < s.len() ==> is_digit(#[trigger] s[i])
}

/// What reading `s` as an unsigned 64-bit decimal number gives: an optional
/// `+` sign followed by at least one digit and nothing else, whose value fits.
pub open spec fn parsed_u64(s: Seq<char>) -> Option<u64> {
    let digits = sign_stripped(s);
    if digits.len() == 0 || !all_digits(digits) || digits_value(digits) > u64::MAX {
        None
    } else {
        Some(digits_value(digits) as u64)
    }
}

/// A character with ASCII upper-case letters mapped to lower case.
pub open spec fn ascii_lower(c: char) -> char {
    if 'A' <= c && c <= 'Z' {
        ((c as int) + 32) as char
    } else {
        c
    }
}

/// Two texts are equal once ASCII letters are folded to lower case.
pub open spec fn eq_ignoring_ascii_case(a: Seq<char>, b: Seq<char>) -> bool {
    a.len() == b.len() && forall|i: int| 0 <= i < a.len() ==> ascii_lower(#[trigger] a[i]) == ascii_lower(b[i])
}

/// `prefix` is a prefix of `s`.
pub open spec fn has_prefix(s: Seq<char>, prefix: Seq<char>) -> bool {
    prefix.len() <= s.len() && s.subrange(0, prefix.len() as int) == prefix
}

/// Returns the one-character text of the lowercase hex digit `n`.
pub fn hex_digit_str(n: u8) -> (r: &'static str)
    requires
        n < 16,
    ensures
        r@ == seq![hex_char(n as int)],
{
    proof {
        reveal_strlit("0");
        reveal_strlit("1");
        reveal_strlit("2");
        reveal_strlit("3");
        reveal_strlit("4");
        reveal_strlit("5");
        reveal_strlit("6");
        reveal_strlit("7");
        reveal_strlit("8");
        reveal_strlit("9");
        reveal_strlit("a");
        reveal_strlit("b");
        reveal_strlit("c");
        reveal_strlit("d");
        reveal_strlit("e");
        reveal_strlit("f");
    }
    match n {
        0 => "0",
        1 => "1",
        2 => "2",
        3 => "3",
        4 => "4",
        5 => "5",
        6 => "6",
        7 => "7",
        8 => "8",
        9 => "9",
        10 => "a",
        11 => "b",
        12 => "c",
        13 => "d",
        14 => "e",
        _ => "f",
    }
}

/// The characters of a text, one per element.
pub fn chars_of(s: &str) -> (v: Vec<char>)
    ensures
        v@ == s@,
{
    let n = s.unicode_len();
    let mut v: Vec<char> = Vec::new();
    for i in 0..n
        invariant
            n == s@.len(),
            v@ == s@.take(i as int),
    {
        v.push(s.get_char(i));
        assert(s@.take(i + 1) == s@.take(i as int).push(s@[i as int]));
    }
    assert(s@.take(n as int) == s@);
    v
}

/// Renders bytes as lowercase hexadecimal text, two digits per byte.
pub fn lower_hex(bytes: &[u8]) -> (r: String)
    ensures
        r@ == hex_text(bytes@),
{
    let mut r = String::new();
    let n = bytes.len();
    for i in 0..n
        invariant
            n == bytes@.len(),
            r@ == hex_text(bytes@.take(i as int)),
    {
        let b = bytes[i];
        r.append(hex_digit_str(b / 16));
        r.append(hex_digit_str(b % 16));
        assert(bytes@.take(i + 1).drop_last() == bytes@.take(i as int));
    }
    assert(bytes@.take(n as int) == bytes@);
    r
}

/// Renders an unsigned number in decimal.
pub fn decimal(n: u64) -> (r: String)
    ensures
        r@ == decimal_text(n as nat),
    decreases n,
{
    if n < 10 {
        let mut r = String::new();
        r.append(hex_digit_str(n as u8));
        r
    } else {
        let mut r = decimal(n / 10);
        r.append(hex_digit_str((n % 10) as u8));
        r
    }
}

/// Reads an unsigned 64-bit decimal number: an optional `+` followed by
/// digits only; `None` where that shape is missing or the value overflows.
pub fn parse_u64(s: &str) -> (r: Option<u64>)
    ensures
        r == parsed_u64(s@),
{
    let chars = chars_of(s);
    let n = chars.len();
    let start: usize = if n > 0 && chars[0] == '+' { 1 } else { 0 };
    let ghost digits = sign_stripped(s@);
    assert(digits == s@.subrange(start as int, n as int));
    if start == n {
        return None;
    }
    // First every character must be a digit.
    let mut i = start;
    while i < n
        invariant
            start <= i <= n,
            n == s@.len(),
            chars@ == s@,
            digits == s@.subrange(start as int, n as int),
            digits == sign_stripped(s@),
            forall|j: int| 0 <= j < i - start ==> is_digit(#[trigger] digits[j]),
        decreases n - i,
    {
        let c = chars[i];
        if !('0' <= c && c <= '9') {
            assert(!is_digit(digits[i - start]));
            return None;
        }
        i = i + 1;
    }
    assert(forall|j: int| 0 <= j < digits.len() ==> is_digit(#[trigger] digits[j]));
    // Then the value must fit.
    let mut value: u64 = 0;
    let mut i = start;
    while i < n
        invariant
            start <= i <= n,
            n == s@.len(),
            chars@ == s@,
            digits == s@.subrange(start as int, n as int),
            digits == sign_stripped(s@),
            forall|j: int| 0 <= j < digits.len() ==> is_digit(#[trigger] digits[j]),
            value as nat == digits_value(digits.subrange(0, i - start)),
        decreases n - i,
    {
        let c = chars[i];
        assert(is_digit(digits[i - start]));
        let d = (c as u32 - '0' as u32) as u64;
        assert(digits.subrange(0, i + 1 - start).drop_last() == digits.subrange(0, i - start));
        if value > (u64::MAX - d) / 10 {
            proof {
                lemma_digits_value_monotone(digits, i + 1 - start);
            }
            return None;
        }
        value = value * 10 + d;
        i = i + 1;
    }
    assert(digits.subrange(0, n - start) == digits);
    Some(value)
}

/// The value of a prefix of a digit string never exceeds the whole value.
proof fn lemma_digits_value_monotone(s: Seq<char>, m: int)
    requires
        0 <= m <= s.len(),
        forall|j: int| 0 <= j < s.len() ==> is_digit(#[trigger] s[j]),
    ensures
        digits_value(s.subrange(0, m)) <= digits_value(s),
    decreases s.len(),
{
    if m == s.len() {
        assert(s.subrange(0, m) == s);
    } else {
        lemma_digits_value_monotone(s.drop_last(), m);
        assert(s.drop_last().subrange(0, m) == s.subrange(0, m));
    }
}

/// Compares two texts, treating ASCII letters case-insensitively.
pub fn eq_ignore_ascii_case(a: &str, b: &str) -> (r: bool)
    ensures
        r == eq_ignoring_ascii_case(a@, b@),
{
    let ca = chars_of(a);
    let cb = chars_of(b);
    if ca.len() != cb.len() {
        return false;
    }
    let n = ca.len();
    for i in 0..n
        invariant
            n == a@.len(),
            n == b@.len(),
            ca@ == a@,
            cb@ == b@,
            forall|j: int| 0 <= j < i ==> ascii_lower(#[trigger] a@[j]) == ascii_lower(b@[j]),
    {
        if lower_ascii_code(ca[i]) != lower_ascii_code(cb[i]) {
            return false;
        }
    }
    true
}

/// The code point of a character after ASCII lower-casing.
pub fn lower_ascii_code(c: char) -> (r: u32)
    ensures
        r == ascii_lower(c) as u32,
{
    if 'A' <= c && c <= 'Z' {
        c as u32 + 32
    } else {
        c as u32
    }
}

/// Whether `s` begins with `prefix`.
pub fn starts_with(s: &str, prefix: &str) -> (r: bool)
    ensures
        r == has_prefix(s@, prefix@),
{
    let cs = chars_of(s);
    let cp = chars_of(prefix);
    if cp.len() > cs.len() {
        return false;
    }
    let n = cp.len();
    for i in 0..n
        invariant
            n == prefix@.len(),
            n <= s@.len(),
            cs@ == s@,
            cp@ == prefix@,
            forall|j: int| 0 <= j < i ==> s@[j] == prefix@[j],
    {
        if cs[i] != cp[i] {
            return false;
        }
    }
    assert(s@.subrange(0, n as int) == prefix@);
    true
}


/// Unicode white space, as `char::is_whitespace` defines it.
pub open spec fn is_whitespace(c: char) -> bool {
    ||| ('\t' <= c && c <= '\r')
    ||| c == ' '
    ||| c == '\u{85}'
    ||| c == '\u{a0}'
    ||| c == '\u{1680}'
    ||| ('\u{2000}' <= c && c <= '\u{200a}')
    ||| c == '\u{2028}'
    ||| c == '\u{2029}'
    ||| c == '\u{202f}'
    ||| c == '\u{205f}'
    ||| c == '\u{3000}'
}

/// The words of `s`: its maximal runs of characters that are not white
/// space, in order.
pub open spec fn words(s: Seq<char>) -> Seq<Seq<char>>
    decreases s.len(),
{
    if s.len() == 0 {
        Seq::empty()
    } else {
        let before = words(s.drop_last());
        let c = s.last();
        if is_whitespace(c) {
            before
        } else if s.len() >= 2 && !is_whitespace(s[s.len() - 2]) {
            before.update(before.len() - 1, before.last().push(c))
        } else {
            before.push(seq![c])
        }
    }
}

/// White space is exactly the characters with the Unicode `White_Space`
/// property (PropList.txt): U+0009..U+000D, U+0020, U+0085, U+00A0, U+1680,
/// U+2000..U+200A, U+2028, U+2029, U+202F, U+205F and U+3000.
pub proof fn lemma_whitespace_is_unicode_white_space(c: char)
    ensures
        is_whitespace(c) <==> {
            let u = c as u32;
            ||| 0x09 <= u <= 0x0d
            ||| u == 0x20
            ||| u == 0x85
            ||| u == 0xa0
            ||| u == 0x1680
            ||| 0x2000 <= u <= 0x200a
            ||| u == 0x2028
            ||| u == 0x2029
            ||| u == 0x202f
            ||| u == 0x205f
            ||| u == 0x3000
        },
{
}

/// The characters of `s` that are not white space, in order.
pub open spec fn non_white(s: Seq<char>) -> Seq<char>
    decreases s.len(),
{
    if s.len() == 0 {
        Seq::empty()
    } else if is_whitespace(s.last()) {
        non_white(s.drop_last())
    } else {
        non_white(s.drop_last()).push(s.last())
    }
}

/// The words of a text are non-empty and hold no white space, and together
/// they hold every character of the text that is not white space, in order.
pub proof fn lemma_words_are_runs_without_white_space(s: Seq<char>)
    ensures
        forall|i: int| 0 <= i < words(s).len() ==> (#[trigger] words(s)[i]).len() > 0,
        forall|i: int, j: int| 0 <= i < words(s).len() && 0 <= j < words(s)[i].len()
            ==> !is_whitespace(#[trigger] words(s)[i][j]),
        words(s).flatten() == non_white(s),
    decreases s.len(),
{
    if s.len() > 0 {
        let p = s.drop_last();
        lemma_words_are_runs_without_white_space(p);
        let before = words(p);
        let c = s.last();
        if is_whitespace(c) {
        } else if s.len() >= 2 && !is_whitespace(s[s.len() - 2]) {
            // The last word grows by `c`.
            assert(before.len() > 0) by {
                assert(p.len() > 0 && !is_whitespace(p.last()));
                if before.len() == 0 {
                    lemma_words_empty_means_all_white(p);
                }
            }
            let w = words(s);
            let last = before.last().push(c);
            assert(w == before.update(before.len() - 1, last));
            assert(before == before.drop_last().push(before.last()));
            assert(w == before.drop_last().push(last));
            before.drop_last().lemma_flatten_push(before.last());
            before.drop_last().lemma_flatten_push(last);
            assert(w.flatten() == before.drop_last().flatten() + last);
            assert(before.flatten() == before.drop_last().flatten() + before.last());
            assert(w.flatten() =~= before.flatten().push(c));
            assert forall|i: int, j: int| 0 <= i < w.len() && 0 <= j < w[i].len()
                implies !is_whitespace(#[trigger] w[i][j]) by {
                if i < w.len() - 1 {
                    assert(w[i] == before[i]);
                } else if j < before.last().len() {
                    assert(w[i][j] == before[before.len() - 1][j]);
                }
            }
        } else {
            // A new word starts with `c`.
            let w = words(s);
            assert(w == before.push(seq![c]));
            before.lemma_flatten_push(seq![c]);
        }
    } else {
        assert(words(s) == Seq::<Seq<char>>::empty());
        assert(Seq::<Seq<char>>::empty().flatten() == Seq::<char>::empty());
    }
}

/// A text without words is all white space.
proof fn lemma_words_empty_means_all_white(s: Seq<char>)
    requires
        words(s).len() == 0,
    ensures
        forall|i: int| 0 <= i < s.len() ==> is_whitespace(#[trigger] s[i]),
    decreases s.len(),
{
    if s.len() > 0 {
        let p = s.drop_last();
        let c = s.last();
        if !is_whitespace(c) {
            if s.len() >= 2 && !is_whitespace(s[s.len() - 2]) {
                assert(words(s).len() == words(p).len());
            } else {
                assert(words(s).len() == words(p).len() + 1);
            }
        }
        assert(words(p).len() == 0);
        lemma_words_empty_means_all_white(p);
        assert forall|i: int| 0 <= i < s.len() implies is_whitespace(#[trigger] s[i]) by {
            if i < s.len() - 1 {
                assert(s[i] == p[i]);
            }
        }
    }
}

/// Whether a character is white space.
pub fn char_is_whitespace(c: char) -> (r: bool)
    ensures
        r == is_whitespace(c),
{
    ('\t' <= c && c <= '\r') || c == ' ' || c == '\u{85}' || c == '\u{a0}' || c == '\u{1680}'
        || ('\u{2000}' <= c && c <= '\u{200a}') || c == '\u{2028}' || c == '\u{2029}'
        || c == '\u{202f}' || c == '\u{205f}' || c == '\u{3000}'
}

/// The texts of a list of strings.
pub open spec fn texts(v: Seq<String>) -> Seq<Seq<char>> {
    v.map_values(|w: String| w@)
}

/// Splits `s` into its words, the runs between white space.
pub fn split_whitespace(s: &str) -> (r: Vec<String>)
    ensures
        texts(r@) == words(s@),
{
    let n = s.unicode_len();
    let mut r: Vec<String> = Vec::new();
    let mut start: Option<usize> = None;
    for i in 0..n
        invariant
            n == s@.len(),
            match start {
                Some(st) => {
                    &&& st < i
                    &&& !is_whitespace(s@[i - 1])
                    &&& texts(r@).push(s@.subrange(st as int, i as int)) == words(s@.take(i as int))
                },
                None => {
                    &&& (i == 0 || is_whitespace(s@[i - 1]))
                    &&& texts(r@) == words(s@.take(i as int))
                },
            },
    {
        let c = s.get_char(i);
        let ghost prev = s@.take(i as int);
        assert(s@.take(i + 1).drop_last() == prev);
        assert(s@.take(i + 1).last() == c);
        if char_is_whitespace(c) {
            match start {
                Some(st) => {
                    let ghost before = r@;
                    let w = s.substring_char(st, i).to_owned();
                    r.push(w);
                    assert(texts(r@) == texts(before).push(s@.subrange(st as int, i as int)));
                },
                None => {},
            }
            start = None;
        } else {
            match start {
                Some(st) => {
                    assert(s@.take(i + 1)[i - 1] == s@[i - 1]);
                    assert(s@.subrange(st as int, i + 1) == s@.subrange(st as int, i as int).push(c));
                },
                None => {
                    start = Some(i);
                    assert(s@.subrange(i as int, i + 1) == seq![c]);
                },
            }
        }
    }
    match start {
        Some(st) => {
            let ghost before = r@;
            let w = s.substring_char(st, n).to_owned();
            r.push(w);
            assert(texts(r@) == texts(before).push(s@.subrange(st as int, n as int)));
        },
        None => {},
    }
    assert(s@.take(n as int) == s@);
    r
}

/// The first word of `s`, or `fallback` when `s` has none.
pub open spec fn first_word_or(s: Seq<char>, fallback: Seq<char>) -> Seq<char> {
    if words(s).len() > 0 {
        words(s)[0]
    } else {
        fallback
    }
}

} // verus!
