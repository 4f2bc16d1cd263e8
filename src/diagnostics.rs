//! Locating a syntax error in the settings file: the line number in the
//! interpreter's message, and that line's byte range in the source.
use vstd::prelude::*;

use crate::style::{trim, trimmed};
use vstd::string::StringSliceAdditionalSpecFns;

verus! {

/// Index just past the line that starts at `i`: after its newline, or the end of the text.
pub open spec fn line_end(b: Seq<u8>, i: int) -> int
    decreases b.len() - i,
{
    if i >= b.len() {
        b.len() as int
    } else if b[i] == 10u8 {
        i + 1
    } else {
        line_end(b, i + 1)
    }
}

/// `e` moved back over carriage returns, not past `start`.
pub open spec fn before_returns(b: Seq<u8>, start: int, e: int) -> int
    decreases e - start,
{
    if e > start && b[e - 1] == 13u8 {
        before_returns(b, start, e - 1)
    } else {
        e
    }
}

/// The length of the line from `start` to `end`, without its line break.
pub open spec fn content_len(b: Seq<u8>, start: int, end: int) -> int {
    let e = if end > start && b[end - 1] == 10u8 {
        end - 1
    } else {
        end
    };
    before_returns(b, start, e) - start
}

/// Offset and length of the `line`-th line (from one) of the text from `start` on.
pub open spec fn range_from(b: Seq<u8>, start: int, line: nat) -> Option<(int, int)>
    decreases line,
{
    if start >= b.len() {
        None
    } else if line <= 1 {
        Some((start, content_len(b, start, line_end(b, start))))
    } else {
        range_from(b, line_end(b, start), (line - 1) as nat)
    }
}

/// Byte offset and length of line `line` (from one) of `b`; an empty text has one empty line.
pub open spec fn line_range_of(b: Seq<u8>, line: nat) -> Option<(int, int)> {
    if line == 0 {
        None
    } else if b.len() == 0 {
        Some((0, 0))
    } else {
        range_from(b, 0, line)
    }
}

proof fn lemma_line_end_bounds(b: Seq<u8>, i: int)
    requires
        0 <= i < b.len(),
    ensures
        i < line_end(b, i) <= b.len(),
    decreases b.len() - i,
{
    if b[i] == 10u8 {
    } else if i + 1 < b.len() {
        lemma_line_end_bounds(b, i + 1);
    } else {
        assert(line_end(b, i + 1) == b.len() as int);
    }
}

/// The byte offset and length of line `line` (counted from one) of `code`,
/// without its line break.
pub fn line_range(code: &str, line: usize) -> (r: Option<(usize, usize)>)
    ensures
        match r {
            Some((o, l)) => line_range_of(code.spec_bytes(), line as nat) == Some((o as int, l as int)),
            None => line_range_of(code.spec_bytes(), line as nat) is None,
        },
{
    let b = code.as_bytes();
    let ghost s = code.spec_bytes();
    let n = b.len();
    if line == 0 {
        return None;
    }
    if n == 0 {
        return Some((0, 0));
    }
    let mut start: usize = 0;
    let mut current: usize = 1;
    loop
        invariant
            b@ == s,
            s == code.spec_bytes(),
            n == s.len(),
            n > 0,
            line > 0,
            start <= n,
            1 <= current <= line,
            range_from(s, start as int, (line - current + 1) as nat) == range_from(s, 0, line as nat),
        decreases line - current,
    {
        if start >= n {
            return None;
        }
        let mut end: usize = start;
        while end < n && b[end] != 10u8
            invariant
                b@ == s,
                n == s.len(),
                start <= end <= n,
                start < n,
                line_end(s, start as int) == line_end(s, end as int),
            decreases n - end,
        {
            end = end + 1;
        }
        if end < n {
            end = end + 1;
        }
        proof {
            lemma_line_end_bounds(s, start as int);
        }
        assert(end as int == line_end(s, start as int));
        if current == line {
            let mut e: usize = end;
            if e > start && b[e - 1] == 10u8 {
                e = e - 1;
            }
            let ghost e0 = e as int;
            while e > start && b[e - 1] == 13u8
                invariant
                    b@ == s,
                    n == s.len(),
                    start <= e <= end <= n,
                    before_returns(s, start as int, e as int) == before_returns(s, start as int, e0),
                decreases e - start,
            {
                e = e - 1;
            }
            assert(range_from(s, start as int, 1) == Some((start as int, (e - start) as int)));
            return Some((start, e - start));
        }
        start = end;
        current = current + 1;
    }
}

/// Where `needle` first occurs in `s` at or after `i`.
pub open spec fn find_from(s: Seq<char>, needle: Seq<char>, i: int) -> Option<int>
    decreases s.len() + 1 - i,
{
    if i < 0 || i + needle.len() > s.len() {
        None
    } else if s.subrange(i, i + needle.len()) == needle {
        Some(i)
    } else {
        find_from(s, needle, i + 1)
    }
}

/// Where `c` last occurs in `s` before `e`.
pub open spec fn last_before(s: Seq<char>, c: char, e: int) -> Option<int>
    decreases e,
{
    if e <= 0 {
        None
    } else if s[e - 1] == c {
        Some(e - 1)
    } else {
        last_before(s, c, e - 1)
    }
}

/// The part of an interpreter message that holds the line number: after the
/// first `]:` up to the next `:`, or else between the last two colons.
pub open spec fn line_part(s: Seq<char>) -> Option<Seq<char>> {
    match find_from(s, "]:"@, 0) {
        Some(k) => {
            let rest = s.subrange(k + 2, s.len() as int);
            match find_from(rest, seq![':'], 0) {
                Some(j) => Some(rest.subrange(0, j)),
                None => Some(rest),
            }
        },
        None => match last_before(s, ':', s.len() as int) {
            Some(last) => match last_before(s, ':', last) {
                Some(second) => Some(s.subrange(second + 1, last)),
                None => None,
            },
            None => None,
        },
    }
}

/// The value of a run of decimal digits.
pub open spec fn digits_value(d: Seq<char>) -> nat
    decreases d.len(),
{
    if d.len() == 0 {
        0
    } else {
        digits_value(d.drop_last()) * 10 + ((d.last() as u32) - ('0' as u32)) as nat
    }
}

/// What parsing `s` as a `usize` gives: an optional `+`, then one or more
/// ASCII digits whose value fits.
pub open spec fn usize_of(s: Seq<char>) -> Option<nat> {
    let d = if s.len() > 0 && s[0] == '+' {
        s.subrange(1, s.len() as int)
    } else {
        s
    };
    if d.len() > 0 && (forall|i: int| 0 <= i < d.len() ==> '0' <= #[trigger] d[i] && d[i] <= '9')
        && digits_value(d) <= usize::MAX {
        Some(digits_value(d))
    } else {
        None
    }
}

/// Relies on `str::parse::<usize>`: an optional `+` and decimal digits, with no overflow.
#[verifier::external_body]
fn parse_usize(s: &str) -> (r: Option<usize>)
    ensures
        match r {
            Some(v) => usize_of(s@) == Some(v as nat),
            None => usize_of(s@) is None,
        },
{
    s.parse().ok()
}

fn find_text(s: &str, needle: &str) -> (r: Option<usize>)
    ensures
        match r {
            Some(k) => find_from(s@, needle@, 0) == Some(k as int) && k + needle@.len() <= s@.len(),
            None => find_from(s@, needle@, 0) is None,
        },
{
    let n = s.unicode_len();
    let m = needle.unicode_len();
    if m > n {
        return None;
    }
    let mut i: usize = 0;
    loop
        invariant
            n == s@.len(),
            m == needle@.len(),
            m <= n,
            i <= n - m,
            find_from(s@, needle@, i as int) == find_from(s@, needle@, 0),
        decreases n - m - i,
    {
        if crate::text::str_eq(s.substring_char(i, i + m), needle) {
            return Some(i);
        }
        if i == n - m {
            assert(find_from(s@, needle@, i + 1) is None);
            return None;
        }
        i = i + 1;
    }
}

fn last_colon_before(s: &str, e: usize) -> (r: Option<usize>)
    requires
        e <= s@.len(),
    ensures
        match r {
            Some(k) => last_before(s@, ':', e as int) == Some(k as int) && k < e,
            None => last_before(s@, ':', e as int) is None,
        },
{
    let mut k: usize = e;
    while k > 0
        invariant
            k <= e <= s@.len(),
            last_before(s@, ':', k as int) == last_before(s@, ':', e as int),
        decreases k,
    {
        if s.get_char(k - 1) == ':' {
            return Some(k - 1);
        }
        k = k - 1;
    }
    None
}

/// The line number in an interpreter's syntax error message, if it names one.
pub fn parse_line_number(message: &str) -> (r: Option<usize>)
    ensures
        match line_part(message@) {
            Some(p) => match r {
                Some(v) => usize_of(trimmed(p)) == Some(v as nat),
                None => usize_of(trimmed(p)) is None,
            },
            None => r is None,
        },
{
    let n = message.unicode_len();
    proof {
        reveal_strlit("]:");
    }
    let part = match find_text(message, "]:") {
        Some(k) => {
            let rest = message.substring_char(k + 2, n);
            proof {
                reveal_strlit(":");
                assert(":"@ =~= seq![':']);
            }
            match find_text(rest, ":") {
                Some(j) => rest.substring_char(0, j),
                None => rest,
            }
        },
        None => {
            let last = match last_colon_before(message, n) {
                Some(last) => last,
                None => {
                    return None;
                },
            };
            let second = match last_colon_before(message, last) {
                Some(second) => second,
                None => {
                    return None;
                },
            };
            message.substring_char(second + 1, last)
        },
    };
    let t = trim(part);
    parse_usize(t.as_str())
}

} // verus!
