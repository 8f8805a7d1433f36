//! Small text grammars of header values: `key=value` lists separated by `;`, and
//! unsigned decimal numbers.

use vstd::prelude::*;
use crate::text::{trim, trim_bounds};

verus! {

/// The first index `j >= i` of `c` in `s`, or `s.len()` where there is none.
pub open spec fn next_index(s: Seq<char>, c: char, i: int) -> int
    decreases s.len() - i,
{
    if i >= s.len() {
        s.len() as int
    } else if s[i] == c {
        i
    } else {
        next_index(s, c, i + 1)
    }
}

pub proof fn lemma_next_index_bounds(s: Seq<char>, c: char, i: int)
    requires
        0 <= i <= s.len(),
    ensures
        i <= next_index(s, c, i) <= s.len(),
        next_index(s, c, i) < s.len() ==> s[next_index(s, c, i)] == c,
        forall|k: int| i <= k < next_index(s, c, i) ==> s[k] != c,
    decreases s.len() - i,
{
    if i < s.len() && s[i] != c {
        lemma_next_index_bounds(s, c, i + 1);
    }
}

/// `next_index(s, c, i)`.
pub fn next_index_exec(s: &[char], c: char, i: usize) -> (res: usize)
    requires
        i <= s@.len(),
    ensures
        res == next_index(s@, c, i as int),
        i <= res <= s@.len(),
{
    proof {
        lemma_next_index_bounds(s@, c, i as int);
    }
    let mut k = i;
    while k < s.len() && s[k] != c
        invariant
            i <= k <= s@.len(),
            next_index(s@, c, i as int) == next_index(s@, c, k as int),
        decreases s.len() - k,
    {
        k = k + 1;
    }
    k
}

/// Whether two character sequences are equal.
pub fn chars_eq(a: &[char], b: &[char]) -> (res: bool)
    ensures
        res == (a@ == b@),
{
    if a.len() != b.len() {
        return false;
    }
    let mut i: usize = 0;
    while i < a.len()
        invariant
            i <= a@.len() == b@.len(),
            forall|k: int| 0 <= k < i ==> a@[k] == b@[k],
        decreases a.len() - i,
    {
        if a[i] != b[i] {
            return false;
        }
        i = i + 1;
    }
    assert(a@ =~= b@);
    true
}

/// The characters `s[from..to]`.
pub fn slice_chars(s: &[char], from: usize, to: usize) -> (res: Vec<char>)
    requires
        from <= to <= s@.len(),
    ensures
        res@ == s@.subrange(from as int, to as int),
{
    let mut res: Vec<char> = Vec::new();
    let mut i = from;
    while i < to
        invariant
            from <= i <= to <= s@.len(),
            res@ == s@.subrange(from as int, i as int),
        decreases to - i,
    {
        res.push(s[i]);
        proof {
            assert(s@.subrange(from as int, i + 1) =~= s@.subrange(from as int, i as int).push(
                s@[i as int],
            ));
        }
        i = i + 1;
    }
    res
}

/// The value of the segment `seg` of a `key=value` list if its key is `key`: the segment
/// is trimmed and cut at its first `=`; a segment without `=` has no value.
pub open spec fn segment_value(seg: Seq<char>, key: Seq<char>) -> Option<Seq<char>> {
    let t = trim(seg);
    let p = next_index(t, '=', 0);
    if p < t.len() && t.take(p) == key {
        Some(t.skip(p + 1))
    } else {
        None
    }
}

/// `segment_value(s[from..to], key)`.
fn segment_value_exec(s: &[char], from: usize, to: usize, key: &[char]) -> (res: Option<Vec<char>>)
    requires
        from <= to <= s@.len(),
    ensures
        match res {
            Some(v) => segment_value(s@.subrange(from as int, to as int), key@) == Some(v@),
            None => segment_value(s@.subrange(from as int, to as int), key@) is None,
        },
{
    let (a, b) = trim_bounds(s, from, to);
    let t = slice_chars(s, a, b);
    let p = next_index_exec(t.as_slice(), '=', 0);
    if p < t.len() {
        let k = slice_chars(t.as_slice(), 0, p);
        assert(k@ == t@.take(p as int));
        if chars_eq(k.as_slice(), key) {
            let v = slice_chars(t.as_slice(), p + 1, t.len());
            assert(v@ == t@.skip(p + 1));
            return Some(v);
        }
    }
    None
}

/// The value of the first segment, from index `i` on, of the `;`-separated list `s`
/// whose key is `key`.
pub open spec fn find_text_from(s: Seq<char>, key: Seq<char>, i: int) -> Option<Seq<char>>
    decreases s.len() - i,
{
    if 0 <= i <= s.len() {
        let j = next_index(s, ';', i);
        proof {
            lemma_next_index_bounds(s, ';', i);
        }
        match segment_value(s.subrange(i, j), key) {
            Some(v) => Some(v),
            None => if j < s.len() {
                find_text_from(s, key, j + 1)
            } else {
                None
            },
        }
    } else {
        None
    }
}

/// The first value under `key` in the `;`-separated `key=value` list `s`
/// (a textual `parse_str`).
pub open spec fn parse_str_text(s: Seq<char>, key: Seq<char>) -> Option<Seq<char>> {
    find_text_from(s, key, 0)
}

/// `parse_str_text(s, key)`.
pub fn parse_str_text_exec(s: &[char], key: &[char]) -> (res: Option<Vec<char>>)
    ensures
        match res {
            Some(v) => parse_str_text(s@, key@) == Some(v@),
            None => parse_str_text(s@, key@) is None,
        },
{
    let mut i: usize = 0;
    loop
        invariant
            i <= s@.len(),
            parse_str_text(s@, key@) == find_text_from(s@, key@, i as int),
        decreases s@.len() - i,
    {
        let j = next_index_exec(s, ';', i);
        match segment_value_exec(s, i, j, key) {
            Some(v) => {
                return Some(v);
            },
            None => {
                if j < s.len() {
                    i = j + 1;
                } else {
                    return None;
                }
            },
        }
    }
}

pub open spec fn is_digit(c: char) -> bool {
    '0' <= c <= '9'
}

/// The number written by the decimal digits `d`.
pub open spec fn digits_value(d: Seq<char>) -> nat
    decreases d.len(),
{
    if d.len() == 0 {
        0
    } else {
        digits_value(d.drop_last()) * 10 + ((d.last() as u32) - ('0' as u32)) as nat
    }
}

/// `s` without a leading `+`.
pub open spec fn unsigned_digits(s: Seq<char>) -> Seq<char> {
    if s.len() > 0 && s[0] == '+' {
        s.drop_first()
    } else {
        s
    }
}

pub open spec fn all_digits(d: Seq<char>) -> bool {
    forall|i: int| 0 <= i < d.len() ==> is_digit(#[trigger] d[i])
}

/// The `u64` that `u64::from_str` reads from `s`: an optional `+` and at least one
/// decimal digit, of a value that fits.
pub open spec fn parse_u64(s: Seq<char>) -> Option<u64> {
    let d = unsigned_digits(s);
    if d.len() > 0 && all_digits(d) && digits_value(d) <= u64::MAX {
        Some(digits_value(d) as u64)
    } else {
        None
    }
}

proof fn lemma_digits_prefix_le(d: Seq<char>, i: int)
    requires
        0 <= i <= d.len(),
    ensures
        digits_value(d.take(i)) <= digits_value(d),
    decreases d.len() - i,
{
    if i < d.len() {
        lemma_digits_prefix_le(d, i + 1);
        assert(d.take(i + 1).drop_last() =~= d.take(i));
    } else {
        assert(d.take(i) =~= d);
    }
}

/// `parse_u64(s)`.
pub fn parse_u64_exec(s: &[char]) -> (res: Option<u64>)
    ensures
        res == parse_u64(s@),
{
    let start: usize = if s.len() > 0 && s[0] == '+' { 1 } else { 0 };
    let ghost d = unsigned_digits(s@);
    assert(d =~= s@.skip(start as int));
    if start >= s.len() {
        return None;
    }
    let mut acc: u64 = 0;
    let mut i = start;
    while i < s.len()
        invariant
            start <= i <= s@.len(),
            d == s@.skip(start as int),
            d == unsigned_digits(s@),
            acc == digits_value(d.take(i - start)),
            forall|k: int| 0 <= k < i - start ==> is_digit(#[trigger] d[k]),
        decreases s.len() - i,
    {
        let c = s[i];
        assert(d[i - start] == c);
        if !('0' <= c && c <= '9') {
            assert(!is_digit(d[i - start]));
            return None;
        }
        let digit = (c as u32 - '0' as u32) as u64;
        proof {
            assert(d.take(i - start + 1).drop_last() =~= d.take(i - start));
            assert(d.take(i - start + 1).last() == c);
        }
        if acc > (u64::MAX - digit) / 10 {
            proof {
                assert(acc * 10 + digit > u64::MAX) by (nonlinear_arith)
                    requires
                        acc > (u64::MAX - digit) / 10,
                        digit <= 9,
                ;
                assert(digits_value(d.take(i - start + 1)) == acc * 10 + digit);
                lemma_digits_prefix_le(d, i - start + 1);
            }
            return None;
        }
        acc = acc * 10 + digit;
        i = i + 1;
    }
    assert(d.take(i - start) =~= d);
    Some(acc)
}

/// The first value under `key`, in the `;`-separated `key=value` list `s` from index
/// `i` on, that reads as a `u64`.
pub open spec fn find_u64_from(s: Seq<char>, key: Seq<char>, i: int) -> Option<u64>
    decreases s.len() - i,
{
    if 0 <= i <= s.len() {
        let j = next_index(s, ';', i);
        proof {
            lemma_next_index_bounds(s, ';', i);
        }
        match segment_value(s.subrange(i, j), key) {
            Some(v) if parse_u64(v) is Some => parse_u64(v),
            _ => if j < s.len() {
                find_u64_from(s, key, j + 1)
            } else {
                None
            },
        }
    } else {
        None
    }
}

/// The first value under `key` in the `;`-separated `key=value` list `s` that reads as
/// a `u64` (a numeric `parse_str`).
pub open spec fn parse_str_u64(s: Seq<char>, key: Seq<char>) -> Option<u64> {
    find_u64_from(s, key, 0)
}

/// `parse_str_u64(s, key)`.
pub fn parse_str_u64_exec(s: &[char], key: &[char]) -> (res: Option<u64>)
    ensures
        res == parse_str_u64(s@, key@),
{
    let mut i: usize = 0;
    loop
        invariant
            i <= s@.len(),
            parse_str_u64(s@, key@) == find_u64_from(s@, key@, i as int),
        decreases s@.len() - i,
    {
        let j = next_index_exec(s, ';', i);
        match segment_value_exec(s, i, j, key) {
            Some(v) => {
                let n = parse_u64_exec(v.as_slice());
                if n.is_some() {
                    return n;
                }
            },
            None => {},
        }
        if j < s.len() {
            i = j + 1;
        } else {
            return None;
        }
    }
}

} // verus!
