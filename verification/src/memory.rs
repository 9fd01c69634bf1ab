//! The resident memory of a process, read from the status text that the
//! operating system gives of it.

use vstd::prelude::*;
use crate::text::{chars_of, parse_decimal, parsed_decimal, string_of};

verus! {

/// The Unicode `White_Space` property.
pub uninterp spec fn unicode_whitespace(c: char) -> bool;

/// `char::is_whitespace`: whether the character has the Unicode property
/// `White_Space`.
#[verifier::external_body]
fn char_is_whitespace(c: char) -> (r: bool)
    ensures
        r == unicode_whitespace(c),
{
    c.is_whitespace()
}

/// `s` without the white space at its start.
pub open spec fn trim_start(s: Seq<char>) -> Seq<char>
    decreases s.len(),
{
    if s.len() > 0 && unicode_whitespace(s[0]) {
        trim_start(s.drop_first())
    } else {
        s
    }
}

/// `s` without the white space at its end.
pub open spec fn trim_end(s: Seq<char>) -> Seq<char>
    decreases s.len(),
{
    if s.len() > 0 && unicode_whitespace(s.last()) {
        trim_end(s.drop_last())
    } else {
        s
    }
}

/// `s` without the white space at either end.
pub open spec fn trim(s: Seq<char>) -> Seq<char> {
    trim_end(trim_start(s))
}

/// Whether `s` ends with `suffix`.
pub open spec fn ends_with(s: Seq<char>, suffix: Seq<char>) -> bool {
    s.len() >= suffix.len() && s.subrange(s.len() - suffix.len(), s.len() as int) == suffix
}

/// Whether `s` starts with `prefix`.
pub open spec fn starts_with(s: Seq<char>, prefix: Seq<char>) -> bool {
    s.len() >= prefix.len() && s.subrange(0, prefix.len() as int) == prefix
}

/// The unit that follows the number.
pub open spec fn unit() -> Seq<char> {
    seq![' ', 'k', 'B']
}

/// The name of the field, with its colon.
pub open spec fn field_name() -> Seq<char> {
    seq!['V', 'm', 'R', 'S', 'S', ':']
}

/// `s` without the units at its end, however many there are.
pub open spec fn strip_units(s: Seq<char>) -> Seq<char>
    decreases s.len(),
{
    if ends_with(s, unit()) {
        strip_units(s.subrange(0, s.len() - 3))
    } else {
        s
    }
}

/// The number of kilobytes that a line states: the line must start with the
/// field's name, and what follows, without the white space around it and the
/// unit behind it, must be an unsigned decimal numeral that fits 64 bits.
pub open spec fn rss_of_line(line: Seq<char>) -> Option<u64> {
    if starts_with(line, field_name()) {
        parsed_decimal(trim(strip_units(trim(line.subrange(6, line.len() as int)))), u64::MAX)
    } else {
        None
    }
}

/// Where the first line of `s` ends: at the first line feed, or at the end
/// of `s`.
pub open spec fn line_end(s: Seq<char>, from: int) -> int
    decreases s.len() - from,
{
    if from >= s.len() || s[from] == '\n' {
        from
    } else {
        line_end(s, from + 1)
    }
}

/// The line that runs from `from` to the line ending at `end`: a carriage
/// return directly before a line feed belongs to the line ending.
pub open spec fn line_at(s: Seq<char>, from: int, end: int) -> Seq<char> {
    if end < s.len() && from < end && s[end - 1] == '\r' {
        s.subrange(from, end - 1)
    } else {
        s.subrange(from, end)
    }
}

/// The resident memory, in kilobytes, that the status text states from the
/// position `from` on: the number of the first line that states one.
pub open spec fn vm_rss_from(s: Seq<char>, from: int) -> Option<u64>
    decreases s.len() - from,
{
    if from < 0 || from >= s.len() {
        None
    } else {
        let end = line_end(s, from);
        match rss_of_line(line_at(s, from, end)) {
            Some(kb) => Some(kb),
            None => if end < s.len() && end >= from {
                vm_rss_from(s, end + 1)
            } else {
                None
            },
        }
    }
}

/// The resident memory, in kilobytes, that a status text states.
pub open spec fn vm_rss_kb(s: Seq<char>) -> Option<u64> {
    vm_rss_from(s, 0)
}

proof fn lemma_trim_start_skip(s: Seq<char>, a: int, b: int)
    requires
        0 <= a < b <= s.len(),
        unicode_whitespace(s[a]),
    ensures
        trim_start(s.subrange(a, b)) == trim_start(s.subrange(a + 1, b)),
{
    assert(s.subrange(a, b).drop_first() == s.subrange(a + 1, b));
}

proof fn lemma_trim_end_skip(s: Seq<char>, a: int, b: int)
    requires
        0 <= a < b <= s.len(),
        unicode_whitespace(s[b - 1]),
    ensures
        trim_end(s.subrange(a, b)) == trim_end(s.subrange(a, b - 1)),
{
    assert(s.subrange(a, b).drop_last() == s.subrange(a, b - 1));
}

/// The bounds of `chars[from..to]` without the white space at either end.
fn trim_range(chars: &Vec<char>, from: usize, to: usize) -> (r: (usize, usize))
    requires
        from <= to <= chars.len(),
    ensures
        from <= r.0 <= r.1 <= to,
        chars@.subrange(r.0 as int, r.1 as int) == trim(chars@.subrange(from as int, to as int)),
{
    let mut a = from;
    while a < to && char_is_whitespace(chars[a])
        invariant
            from <= a <= to <= chars.len(),
            trim_start(chars@.subrange(a as int, to as int)) == trim_start(
                chars@.subrange(from as int, to as int),
            ),
        decreases to - a,
    {
        proof {
            lemma_trim_start_skip(chars@, a as int, to as int);
        }
        a += 1;
    }
    proof {
        let rest = chars@.subrange(a as int, to as int);
        if a < to {
            assert(rest[0] == chars@[a as int]);
        }
        assert(trim_start(rest) == rest);
    }
    let mut b = to;
    while b > a && char_is_whitespace(chars[b - 1])
        invariant
            a <= b <= to <= chars.len(),
            trim_end(chars@.subrange(a as int, b as int)) == trim_end(
                chars@.subrange(a as int, to as int),
            ),
        decreases b,
    {
        proof {
            lemma_trim_end_skip(chars@, a as int, b as int);
        }
        b -= 1;
    }
    proof {
        let kept = chars@.subrange(a as int, b as int);
        if a < b {
            assert(kept.last() == chars@[b - 1]);
        }
        assert(trim_end(kept) == kept);
    }
    (a, b)
}

/// Whether `chars[from..to]` ends with the unit.
fn ends_with_unit(chars: &Vec<char>, from: usize, to: usize) -> (r: bool)
    requires
        from <= to <= chars.len(),
    ensures
        r == ends_with(chars@.subrange(from as int, to as int), unit()),
{
    if to - from < 3 {
        return false;
    }
    let r = chars[to - 3] == ' ' && chars[to - 2] == 'k' && chars[to - 1] == 'B';
    proof {
        let s = chars@.subrange(from as int, to as int);
        let tail = s.subrange(s.len() - 3, s.len() as int);
        assert(tail[0] == chars@[to - 3]);
        assert(tail[1] == chars@[to - 2]);
        assert(tail[2] == chars@[to - 1]);
        if r {
            assert(tail =~= unit());
        }
    }
    r
}

/// The end of `chars[from..to]` without the units at its end.
fn strip_units_range(chars: &Vec<char>, from: usize, to: usize) -> (end: usize)
    requires
        from <= to <= chars.len(),
    ensures
        from <= end <= to,
        chars@.subrange(from as int, end as int) == strip_units(
            chars@.subrange(from as int, to as int),
        ),
{
    let mut end = to;
    while ends_with_unit(chars, from, end)
        invariant
            from <= end <= to <= chars.len(),
            strip_units(chars@.subrange(from as int, end as int)) == strip_units(
                chars@.subrange(from as int, to as int),
            ),
        decreases end,
    {
        proof {
            let s = chars@.subrange(from as int, end as int);
            assert(s.subrange(0, s.len() - 3) == chars@.subrange(from as int, end - 3));
        }
        end -= 3;
    }
    end
}

/// Whether `chars[from..to]` starts with the field's name.
fn starts_with_field(chars: &Vec<char>, from: usize, to: usize) -> (r: bool)
    requires
        from <= to <= chars.len(),
    ensures
        r == starts_with(chars@.subrange(from as int, to as int), field_name()),
{
    if to - from < 6 {
        return false;
    }
    let r = chars[from] == 'V' && chars[from + 1] == 'm' && chars[from + 2] == 'R' && chars[from
        + 3] == 'S' && chars[from + 4] == 'S' && chars[from + 5] == ':';
    proof {
        let s = chars@.subrange(from as int, to as int);
        let head = s.subrange(0, 6);
        assert(head[0] == chars@[from as int]);
        assert(head[1] == chars@[from + 1]);
        assert(head[2] == chars@[from + 2]);
        assert(head[3] == chars@[from + 3]);
        assert(head[4] == chars@[from + 4]);
        assert(head[5] == chars@[from + 5]);
        if r {
            assert(head =~= field_name());
        }
    }
    r
}

/// The number of kilobytes that the line `chars[from..to]` states.
fn rss_of_range(chars: &Vec<char>, from: usize, to: usize) -> (r: Option<u64>)
    requires
        from <= to <= chars.len(),
    ensures
        r == rss_of_line(chars@.subrange(from as int, to as int)),
{
    if !starts_with_field(chars, from, to) {
        return None;
    }
    proof {
        let line = chars@.subrange(from as int, to as int);
        assert(line.subrange(6, line.len() as int) == chars@.subrange(from + 6, to as int));
    }
    let (a, b) = trim_range(chars, from + 6, to);
    let c = strip_units_range(chars, a, b);
    let (d, e) = trim_range(chars, a, c);
    let text = string_of(chars, d, e);
    parse_decimal(text.as_str(), u64::MAX)
}

/// Reads the resident memory of a process, in kilobytes, from its status
/// text: the number that the first line states which starts with `VmRSS:`
/// and holds a number. `None` where no line does.
pub fn parse_vm_rss_kb(status: &str) -> (r: Option<u64>)
    ensures
        r == vm_rss_kb(status@),
{
    let chars = chars_of(status);
    let n = chars.len();
    let mut from: usize = 0;
    while from < n
        invariant
            from <= n + 1,
            n == chars.len(),
            chars@ == status@,
            vm_rss_kb(status@) == vm_rss_from(chars@, from as int),
        decreases n + 1 - from,
    {
        let mut end = from;
        while end < n && chars[end] != '\n'
            invariant
                from <= end <= n,
                n == chars.len(),
                line_end(chars@, end as int) == line_end(chars@, from as int),
            decreases n - end,
        {
            end += 1;
        }
        let stop = if end < n && from < end && chars[end - 1] == '\r' {
            end - 1
        } else {
            end
        };
        match rss_of_range(&chars, from, stop) {
            Some(kb) => {
                return Some(kb);
            },
            None => {},
        }
        if end >= n {
            return None;
        }
        from = end + 1;
    }
    None
}

} // verus!
