//! Character and string primitives shared by the rest of the crate.

use vstd::prelude::*;
use vstd::string::*;

verus! {

/// The Unicode `Uppercase` property on characters outside the ASCII range.
pub uninterp spec fn unicode_uppercase(c: char) -> bool;

/// Whether `c` counts as an uppercase letter: `A` to `Z` within ASCII, the
/// Unicode `Uppercase` property beyond it.
pub open spec fn is_upper(c: char) -> bool {
    if (c as u32) < 0x80 {
        'A' <= c && c <= 'Z'
    } else {
        unicode_uppercase(c)
    }
}

/// ASCII lowercase mapping: `A` to `Z` go to `a` to `z`, everything else is
/// unchanged.
pub open spec fn ascii_lower(c: char) -> char {
    if 'A' <= c && c <= 'Z' {
        ((c as u32) + 32) as char
    } else {
        c
    }
}

/// `char::is_uppercase` on a character outside the ASCII range: whether it
/// has the Unicode property `Uppercase`.
#[verifier::external_body]
fn char_has_uppercase_property(c: char) -> (r: bool)
    requires
        (c as u32) >= 0x80,
    ensures
        r == unicode_uppercase(c),
{
    c.is_uppercase()
}

/// Whether `c` is an uppercase letter.
pub(crate) fn char_is_uppercase(c: char) -> (r: bool)
    ensures
        r == is_upper(c),
{
    if (c as u32) < 0x80 {
        'A' <= c && c <= 'Z'
    } else {
        char_has_uppercase_property(c)
    }
}

/// `char::to_ascii_lowercase`: maps the ASCII letters `A` to `Z` to `a` to
/// `z` and leaves every other character as it is.
#[verifier::external_body]
pub(crate) fn char_to_ascii_lowercase(c: char) -> (r: char)
    ensures
        r == ascii_lower(c),
{
    c.to_ascii_lowercase()
}

/// `String::push`: appends one character to the end of the string.
#[verifier::external_body]
pub(crate) fn push_char(s: &mut String, c: char)
    ensures
        final(s)@ == old(s)@.push(c),
{
    s.push(c)
}

/// What `String::from_utf8_lossy` makes of a byte sequence.
pub uninterp spec fn utf8_lossy(bytes: Seq<u8>) -> Seq<char>;

/// `String::from_utf8_lossy`: the bytes read as UTF-8, each invalid sequence
/// replaced by U+FFFD. The text depends on the bytes alone.
#[verifier::external_body]
pub(crate) fn lossy_text(bytes: &[u8]) -> (r: String)
    ensures
        r@ == utf8_lossy(bytes@),
{
    String::from_utf8_lossy(bytes).into_owned()
}

/// Whether two string slices hold the same characters.
pub fn str_eq(a: &str, b: &str) -> (r: bool)
    ensures
        r == (a@ == b@),
{
    String::from_str(a) == String::from_str(b)
}

/// The characters of `s`, in order.
pub fn chars_of(s: &str) -> (r: Vec<char>)
    ensures
        r@ == s@,
{
    let mut out: Vec<char> = Vec::new();
    for c in it: s.chars()
        invariant
            out@ == s@.subrange(0, it.index() as int),
            it.seq() == s@,
    {
        out.push(c);
    }
    out
}

/// The string made of the characters `chars[from..to]`.
pub(crate) fn string_of(chars: &Vec<char>, from: usize, to: usize) -> (r: String)
    requires
        from <= to <= chars.len(),
    ensures
        r@ == chars@.subrange(from as int, to as int),
{
    let mut out = String::new();
    let mut i: usize = from;
    while i < to
        invariant
            from <= i <= to <= chars.len(),
            out@ == chars@.subrange(from as int, i as int),
        decreases to - i,
    {
        push_char(&mut out, chars[i]);
        i += 1;
    }
    out
}

/// An owned copy of `s`.
pub fn owned(s: &str) -> (r: String)
    ensures
        r@ == s@,
{
    String::from_str(s)
}

/// The string `a` followed by `b`.
pub fn joined(a: &str, b: &str) -> (r: String)
    ensures
        r@ == a@ + b@,
{
    let mut out = String::from_str(a);
    out.append(b);
    out
}

/// The decimal digit `d`.
pub open spec fn digit(d: nat) -> char
    recommends
        d < 10,
{
    (('0' as u8) + d) as u8 as char
}

/// The decimal numeral of `n`, without leading zeros.
pub open spec fn decimal(n: nat) -> Seq<char>
    decreases n,
{
    if n < 10 {
        seq![digit(n)]
    } else {
        decimal(n / 10).push(digit(n % 10))
    }
}

/// The numeral of `m` where `m` is positive, nothing where it is zero.
spec fn leading(m: nat) -> Seq<char> {
    if m > 0 {
        decimal(m)
    } else {
        Seq::empty()
    }
}

/// Appends the decimal numeral of `n` to `out`.
pub fn push_decimal(out: &mut String, n: u64)
    ensures
        final(out)@ == old(out)@ + decimal(n as nat),
{
    let mut rev: Vec<char> = Vec::new();
    let mut m: u64 = n;
    rev.push(((m % 10) as u8 + 48u8) as char);
    m = m / 10;
    proof {
        assert(decimal(n as nat) =~= leading(m as nat) + rev@.reverse());
    }
    while m > 0
        invariant
            rev.len() >= 1,
            decimal(n as nat) == leading(m as nat) + rev@.reverse(),
        decreases m,
    {
        let ghost before = rev@;
        let d = ((m % 10) as u8 + 48u8) as char;
        rev.push(d);
        proof {
            assert(d == digit((m % 10) as nat));
            assert(leading(m as nat) == leading((m / 10) as nat).push(d));
            assert(rev@.reverse() =~= seq![d] + before.reverse());
            assert(leading(m as nat) + before.reverse() =~= leading((m / 10) as nat)
                + rev@.reverse());
        }
        m = m / 10;
    }
    let mut i: usize = rev.len();
    while i > 0
        invariant
            i <= rev.len(),
            out@ == old(out)@ + rev@.reverse().subrange(0, rev.len() - i),
        decreases i,
    {
        i -= 1;
        push_char(out, rev[i]);
        proof {
            let r = rev@.reverse();
            assert(r[rev.len() - 1 - i] == rev@[i as int]);
            assert(r.subrange(0, rev.len() - i) =~= r.subrange(0, rev.len() - 1 - i).push(
                rev@[i as int],
            ));
        }
    }
    proof {
        assert(rev@.reverse().subrange(0, rev.len() as int) == rev@.reverse());
    }
}

/// `String::from_utf8`: the text that the bytes encode, where they are valid
/// UTF-8, and nothing where they are not.
#[verifier::external_body]
pub(crate) fn utf8_text(bytes: Vec<u8>) -> (r: Option<String>)
    ensures
        match r {
            Some(s) => vstd::utf8::valid_utf8(bytes@) && s@ == vstd::utf8::decode_utf8(bytes@),
            None => !vstd::utf8::valid_utf8(bytes@),
        },
{
    String::from_utf8(bytes).ok()
}

/// The character sequences of a list of strings.
pub open spec fn strings_view(v: Seq<String>) -> Seq<Seq<char>> {
    v.map_values(|s: String| s@)
}

/// The character sequences of a list of string slices.
pub open spec fn strs_view(v: Seq<&'static str>) -> Seq<Seq<char>> {
    v.map_values(|s: &'static str| s@)
}

/// Whether `list` holds the string `s`.
pub fn contains_str(list: &Vec<String>, s: &str) -> (r: bool)
    ensures
        r == strings_view(list@).contains(s@),
{
    let mut i: usize = 0;
    while i < list.len()
        invariant
            i <= list.len(),
            forall|k: int| 0 <= k < i ==> strings_view(list@)[k] != s@,
        decreases list.len() - i,
    {
        if str_eq(list[i].as_str(), s) {
            proof {
                assert(strings_view(list@)[i as int] == s@);
            }
            return true;
        }
        i += 1;
    }
    false
}

/// Whether `c` is one of the digits `0` to `9`.
pub open spec fn is_digit(c: char) -> bool {
    '0' <= c && c <= '9'
}

/// The number that a sequence of digits denotes in base ten.
pub open spec fn digits_value(s: Seq<char>) -> nat
    decreases s.len(),
{
    if s.len() == 0 {
        0
    } else {
        digits_value(s.drop_last()) * 10 + ((s.last() as u32) - ('0' as u32)) as nat
    }
}

/// Whether every character is a digit.
pub open spec fn all_digits(s: Seq<char>) -> bool {
    forall|i: int| 0 <= i < s.len() ==> is_digit(#[trigger] s[i])
}

/// The digits of a numeral: the text without one leading `+`.
pub open spec fn unsigned_body(s: Seq<char>) -> Seq<char> {
    if s.len() > 0 && s[0] == '+' {
        s.drop_first()
    } else {
        s
    }
}

/// The number that `s` denotes as an unsigned decimal numeral no greater
/// than `max`: an optional `+`, then one digit or more and nothing else.
/// Leading zeros are accepted; blanks, signs elsewhere and underscores are
/// not. `None` for any other text, and for a numeral greater than `max`.
pub open spec fn parsed_decimal(s: Seq<char>, max: u64) -> Option<u64> {
    let body = unsigned_body(s);
    if body.len() > 0 && all_digits(body) && digits_value(body) <= max {
        Some(digits_value(body) as u64)
    } else {
        None
    }
}

proof fn lemma_digits_monotone(s: Seq<char>, i: int)
    requires
        0 <= i <= s.len(),
    ensures
        digits_value(s.subrange(0, i)) <= digits_value(s),
    decreases s.len() - i,
{
    if i < s.len() {
        let next = s.subrange(0, i + 1);
        assert(next.drop_last() == s.subrange(0, i));
        lemma_digits_monotone(s, i + 1);
    } else {
        assert(s.subrange(0, i) == s);
    }
}

/// Reads `s` as an unsigned decimal numeral no greater than `max`.
pub fn parse_decimal(s: &str, max: u64) -> (r: Option<u64>)
    ensures
        r == parsed_decimal(s@, max),
{
    let chars = chars_of(s);
    let n = chars.len();
    let start: usize = if n > 0 && chars[0] == '+' {
        1
    } else {
        0
    };
    let ghost body = unsigned_body(s@);
    proof {
        assert(body == chars@.subrange(start as int, n as int));
    }
    if start == n {
        return None;
    }
    let mut acc: u64 = 0;
    let mut i: usize = start;
    while i < n
        invariant
            start <= i <= n,
            n == chars.len(),
            body == chars@.subrange(start as int, n as int),
            body == unsigned_body(s@),
            all_digits(body.subrange(0, i - start)),
            acc == digits_value(body.subrange(0, i - start)),
            acc <= max,
        decreases n - i,
    {
        let c = chars[i];
        let ghost k = i - start;
        proof {
            assert(body[k] == c);
            assert(body.subrange(0, k + 1).drop_last() == body.subrange(0, k));
            assert(body.subrange(0, k + 1).last() == c);
        }
        if c < '0' || c > '9' {
            proof {
                assert(!is_digit(body[k]));
            }
            return None;
        }
        let d = (c as u32 - '0' as u32) as u64;
        if d > max || acc > (max - d) / 10 {
            proof {
                assert(acc * 10 + d > max);
                lemma_digits_monotone(body, k + 1);
                if all_digits(body) {
                    assert(digits_value(body) > max);
                }
            }
            return None;
        }
        acc = acc * 10 + d;
        proof {
            assert forall|j: int| 0 <= j < k + 1 implies is_digit(
                #[trigger] body.subrange(0, k + 1)[j],
            ) by {
                if j < k {
                    assert(body.subrange(0, k)[j] == body[j]);
                }
            }
        }
        i += 1;
    }
    proof {
        assert(body.subrange(0, n - start) == body);
    }
    Some(acc)
}

/// Whether `pattern` stands in `s` at the position `i`.
pub open spec fn occurs_at(pattern: Seq<char>, s: Seq<char>, i: int) -> bool {
    0 <= i && i + pattern.len() <= s.len() && s.subrange(i, i + pattern.len()) == pattern
}

/// Whether `pattern` occurs in `s` as a run of consecutive characters.
pub open spec fn is_substring(pattern: Seq<char>, s: Seq<char>) -> bool {
    exists|i: int| occurs_at(pattern, s, i)
}

/// Whether `pattern` occurs in `s`.
pub fn contains_substring(s: &str, pattern: &str) -> (r: bool)
    ensures
        r == is_substring(pattern@, s@),
{
    let text = chars_of(s);
    let pat = chars_of(pattern);
    let n = text.len();
    let m = pat.len();
    if m > n {
        return false;
    }
    let mut i: usize = 0;
    while i <= n - m
        invariant
            m <= n,
            n == text.len(),
            m == pat.len(),
            text@ == s@,
            pat@ == pattern@,
            i <= n - m + 1,
            forall|k: int| 0 <= k < i ==> !occurs_at(pat@, text@, k),
        decreases n - m + 1 - i,
    {
        let mut j: usize = 0;
        while j < m && text[i + j] == pat[j]
            invariant
                j <= m,
                i + m <= n,
                n == text.len(),
                m == pat.len(),
                forall|t: int| 0 <= t < j ==> text@[i + t] == pat@[t],
            decreases m - j,
        {
            j += 1;
        }
        if j == m {
            proof {
                assert(text@.subrange(i as int, i + m) =~= pat@);
                assert(occurs_at(pat@, text@, i as int));
            }
            return true;
        }
        proof {
            assert(text@.subrange(i as int, i + m)[j as int] != pat@[j as int]);
        }
        i += 1;
    }
    false
}

/// The truth value that `s` denotes: `true` and `false` in exactly this
/// spelling, nothing else.
pub open spec fn parsed_bool(s: Seq<char>) -> Option<bool> {
    if s == "true"@ {
        Some(true)
    } else if s == "false"@ {
        Some(false)
    } else {
        None
    }
}

/// Reads `s` as a truth value.
pub fn parse_bool(s: &str) -> (r: Option<bool>)
    ensures
        r == parsed_bool(s@),
{
    if str_eq(s, "true") {
        Some(true)
    } else if str_eq(s, "false") {
        Some(false)
    } else {
        None
    }
}

} // verus!
