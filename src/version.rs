//! Release version comparison: a version string is read as up to three
//! dot-separated numbers, pieces that are not numbers being skipped.

use vstd::prelude::*;
use vstd::string::*;
use crate::text::split_on;

verus! {

pub open spec fn is_digit(c: char) -> bool {
    '0' <= c <= '9'
}

pub open spec fn all_digits(d: Seq<char>) -> bool {
    forall|i: int| 0 <= i < d.len() ==> is_digit(#[trigger] d[i])
}

/// Value of a string of decimal digits.
pub open spec fn digits_value(d: Seq<char>) -> int
    decreases d.len(),
{
    if d.len() == 0 { 0 } else { digits_value(d.drop_last()) * 10 + (d.last() as int - '0' as int) }
}

/// A piece read as an unsigned 32-bit number: an optional `+`, then one or
/// more decimal digits whose value fits.
pub open spec fn parse_u32_spec(p: Seq<char>) -> Option<u32> {
    let d = if p.len() > 0 && p[0] == '+' { p.drop_first() } else { p };
    if d.len() > 0 && all_digits(d) && digits_value(d) <= u32::MAX {
        Some(digits_value(d) as u32)
    } else {
        None
    }
}

/// The numbers among the pieces, in order.
pub open spec fn parsed_parts(ps: Seq<Seq<char>>) -> Seq<u32>
    decreases ps.len(),
{
    if ps.len() == 0 {
        Seq::<u32>::empty()
    } else {
        let r = parsed_parts(ps.drop_last());
        match parse_u32_spec(ps.last()) {
            Some(v) => r.push(v),
            None => r,
        }
    }
}

pub open spec fn part_or_zero(v: Seq<u32>, i: int) -> u32 {
    if i < v.len() { v[i] } else { 0 }
}

/// Major, minor and patch numbers of a version string, missing ones 0.
pub open spec fn version_triple(s: Seq<char>) -> (u32, u32, u32) {
    let v = parsed_parts(split_on(s, '.'));
    (part_or_zero(v, 0), part_or_zero(v, 1), part_or_zero(v, 2))
}

pub open spec fn triple_greater(a: (u32, u32, u32), b: (u32, u32, u32)) -> bool {
    a.0 > b.0 || (a.0 == b.0 && (a.1 > b.1 || (a.1 == b.1 && a.2 > b.2)))
}

/// Reads the piece `s[start..end]` as a number.
fn parse_piece(s: &str, start: usize, end: usize) -> (r: Option<u32>)
    requires
        start <= end <= s@.len(),
    ensures
        r == parse_u32_spec(s@.subrange(start as int, end as int)),
{
    let ghost p = s@.subrange(start as int, end as int);
    let mut i = start;
    if i < end && s.get_char(i) == '+' {
        i = i + 1;
    }
    let ghost d = if p.len() > 0 && p[0] == '+' { p.drop_first() } else { p };
    assert(d =~= s@.subrange(i as int, end as int));
    let first = i;
    if first == end {
        return None;
    }
    let mut value: u64 = 0;
    let mut overflow = false;
    while i < end
        invariant
            start <= first <= i <= end <= s@.len(),
            d == s@.subrange(first as int, end as int),
            p == s@.subrange(start as int, end as int),
            d == (if p.len() > 0 && p[0] == '+' { p.drop_first() } else { p }),
            forall|j: int| 0 <= j < i - first ==> is_digit(#[trigger] d[j]),
            !overflow ==> value == digits_value(d.subrange(0, i - first)) && value <= u32::MAX,
            overflow ==> digits_value(d.subrange(0, i - first)) > u32::MAX,
        decreases end - i,
    {
        let c = s.get_char(i);
        assert(c == d[i - first]);
        if !('0' <= c && c <= '9') {
            assert(!is_digit(d[i - first]));
            assert(!all_digits(d));
            return None;
        }
        let digit = (c as u32 - '0' as u32) as u64;
        let ghost prev = d.subrange(0, i - first);
        let ghost next = d.subrange(0, i - first + 1);
        assert(next.drop_last() =~= prev);
        assert(digits_value(next) == digits_value(prev) * 10 + digit);
        if !overflow {
            let v = value * 10 + digit;
            if v > u32::MAX as u64 {
                overflow = true;
            } else {
                value = v;
            }
        }
        i = i + 1;
    }
    assert(d.subrange(0, d.len() as int) =~= d);
    if overflow { None } else { Some(value as u32) }
}

/// The numbers of a version string, in order.
fn version_parts(s: &str) -> (r: Vec<u32>)
    ensures
        r@ == parsed_parts(split_on(s@, '.')),
{
    let n = s.unicode_len();
    let mut parts: Vec<u32> = Vec::new();
    let mut start: usize = 0;
    let mut i: usize = 0;
    let ghost mut done: Seq<Seq<char>> = Seq::empty();
    assert(s@.subrange(0, 0) =~= Seq::<char>::empty());
    assert(split_on(Seq::<char>::empty(), '.') == seq![Seq::<char>::empty()]);
    assert(split_on(s@.subrange(0, 0), '.') =~= done.push(s@.subrange(0, 0)));
    while i < n
        invariant
            n == s@.len(),
            0 <= start <= i <= n,
            split_on(s@.subrange(0, i as int), '.') == done.push(s@.subrange(start as int, i as int)),
            parts@ == parsed_parts(done),
        decreases n - i,
    {
        let c = s.get_char(i);
        let ghost pre = s@.subrange(0, i as int);
        let ghost post = s@.subrange(0, i as int + 1);
        assert(post.drop_last() =~= pre);
        assert(post.last() == c);
        if c == '.' {
            let piece = parse_piece(s, start, i);
            let ghost cur = s@.subrange(start as int, i as int);
            proof {
                assert(parsed_parts(done.push(cur)) == match parse_u32_spec(cur) {
                    Some(v) => parsed_parts(done).push(v),
                    None => parsed_parts(done),
                }) by {
                    assert(done.push(cur).drop_last() =~= done);
                }
                done = done.push(cur);
            }
            if let Some(v) = piece {
                parts.push(v);
            }
            start = i + 1;
            assert(s@.subrange(start as int, i as int + 1) =~= Seq::<char>::empty());
        } else {
            let ghost cur = s@.subrange(start as int, i as int);
            assert(s@.subrange(start as int, i as int + 1) =~= cur.push(c));
            assert(split_on(post, '.') =~= done.push(cur.push(c)));
        }
        i = i + 1;
    }
    let last = parse_piece(s, start, n);
    let ghost cur = s@.subrange(start as int, n as int);
    proof {
        assert(s@.subrange(0, n as int) =~= s@);
        assert(done.push(cur).drop_last() =~= done);
    }
    if let Some(v) = last {
        parts.push(v);
    }
    parts
}

fn part_at(v: &Vec<u32>, i: usize) -> (r: u32)
    ensures
        r == part_or_zero(v@, i as int),
{
    if i < v.len() { v[i] } else { 0 }
}

/// Whether release `remote` is strictly newer than `local`, comparing
/// major, minor and patch numbers in turn.
pub fn is_newer(remote: &str, local: &str) -> (r: bool)
    ensures
        r == triple_greater(version_triple(remote@), version_triple(local@)),
{
    let a = version_parts(remote);
    let b = version_parts(local);
    let (a0, a1, a2) = (part_at(&a, 0), part_at(&a, 1), part_at(&a, 2));
    let (b0, b1, b2) = (part_at(&b, 0), part_at(&b, 1), part_at(&b, 2));
    a0 > b0 || (a0 == b0 && (a1 > b1 || (a1 == b1 && a2 > b2)))
}

} // verus!
