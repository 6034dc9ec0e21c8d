//! Decimal rendering of integers, used in diagnostic messages.

use vstd::prelude::*;
use vstd::string::*;

verus! {

/// The decimal digits of a natural number, most significant first.
pub open spec fn decimal_digits(n: nat) -> Seq<char>
    decreases n,
{
    if n < 10 {
        seq![digit_char(n)]
    } else {
        decimal_digits(n / 10).push(digit_char(n % 10))
    }
}

/// The character for a single decimal digit.
pub open spec fn digit_char(d: nat) -> char {
    if d == 0 { '0' }
    else if d == 1 { '1' }
    else if d == 2 { '2' }
    else if d == 3 { '3' }
    else if d == 4 { '4' }
    else if d == 5 { '5' }
    else if d == 6 { '6' }
    else if d == 7 { '7' }
    else if d == 8 { '8' }
    else { '9' }
}

/// The decimal rendering of a signed integer, with a leading `-` when negative.
pub open spec fn decimal_int(n: int) -> Seq<char> {
    if n < 0 {
        seq!['-'] + decimal_digits((-n) as nat)
    } else {
        decimal_digits(n as nat)
    }
}

fn digit_str(d: u64) -> (r: &'static str)
    requires
        d < 10,
    ensures
        r@ == seq![digit_char(d as nat)],
{
    proof {
        reveal_strlit("0");
        reveal_strlit("1");
        reveal_strlit("2");
        reveal_strlit("3");
        reveal_strlit("4");
        reveal_strlit("5");
        reveal_strlit("6");
        reveal_strlit("7");
        reveal_strlit("8");
        reveal_strlit("9");
    }
    if d == 0 { "0" }
    else if d == 1 { "1" }
    else if d == 2 { "2" }
    else if d == 3 { "3" }
    else if d == 4 { "4" }
    else if d == 5 { "5" }
    else if d == 6 { "6" }
    else if d == 7 { "7" }
    else if d == 8 { "8" }
    else { "9" }
}

/// Appends the decimal digits of `n` to `out`.
pub fn push_decimal_u64(out: &mut String, n: u64)
    ensures
        final(out)@ == old(out)@ + decimal_digits(n as nat),
    decreases n,
{
    if n < 10 {
        out.append(digit_str(n));
    } else {
        push_decimal_u64(out, n / 10);
        out.append(digit_str(n % 10));
    }
}

/// Appends the decimal rendering of `n` to `out`.
pub fn push_decimal_i64(out: &mut String, n: i64)
    ensures
        final(out)@ == old(out)@ + decimal_int(n as int),
{
    proof {
        reveal_strlit("-");
    }
    if n < 0 {
        out.append("-");
        let m: u64 = if n == i64::MIN {
            9223372036854775808u64
        } else {
            (-n) as u64
        };
        push_decimal_u64(out, m);
        assert(final(out)@ =~= old(out)@ + decimal_int(n as int));
    } else {
        push_decimal_u64(out, n as u64);
    }
}

/// The pieces of `s` between occurrences of `sep` (an empty string is one
/// empty piece), as `str::split` gives them.
pub open spec fn split_on(s: Seq<char>, sep: char) -> Seq<Seq<char>>
    decreases s.len(),
{
    if s.len() == 0 {
        seq![Seq::<char>::empty()]
    } else {
        let rest = split_on(s.drop_last(), sep);
        if s.last() == sep {
            rest.push(Seq::<char>::empty())
        } else {
            rest.update(rest.len() - 1, rest.last().push(s.last()))
        }
    }
}

/// Unicode White_Space, the set `str::trim` removes.
pub open spec fn is_whitespace(c: char) -> bool {
    ('\u{9}' <= c <= '\u{d}') || c == ' ' || c == '\u{85}' || c == '\u{a0}' || c == '\u{1680}'
        || ('\u{2000}' <= c <= '\u{200a}') || c == '\u{2028}' || c == '\u{2029}' || c == '\u{202f}'
        || c == '\u{205f}' || c == '\u{3000}'
}

pub fn char_is_whitespace(c: char) -> (r: bool)
    ensures
        r == is_whitespace(c),
{
    ('\u{9}' <= c && c <= '\u{d}') || c == ' ' || c == '\u{85}' || c == '\u{a0}' || c == '\u{1680}'
        || ('\u{2000}' <= c && c <= '\u{200a}') || c == '\u{2028}' || c == '\u{2029}' || c == '\u{202f}'
        || c == '\u{205f}' || c == '\u{3000}'
}

/// `s` without leading whitespace.
pub open spec fn trim_start(s: Seq<char>) -> Seq<char>
    decreases s.len(),
{
    if s.len() > 0 && is_whitespace(s[0]) { trim_start(s.drop_first()) } else { s }
}

/// `s` without trailing whitespace.
pub open spec fn trim_end(s: Seq<char>) -> Seq<char>
    decreases s.len(),
{
    if s.len() > 0 && is_whitespace(s.last()) { trim_end(s.drop_last()) } else { s }
}

/// `s` without leading and trailing whitespace.
pub open spec fn trim(s: Seq<char>) -> Seq<char> {
    trim_end(trim_start(s))
}

/// The characters `s[from..to]` without leading and trailing whitespace.
pub fn trimmed_piece(s: &str, from: usize, to: usize) -> (r: String)
    requires
        from <= to <= s@.len(),
    ensures
        r@ == trim(s@.subrange(from as int, to as int)),
{
    let ghost p = s@.subrange(from as int, to as int);
    let mut i = from;
    while i < to && char_is_whitespace(s.get_char(i))
        invariant
            from <= i <= to <= s@.len(),
            p == s@.subrange(from as int, to as int),
            trim_start(p) == trim_start(s@.subrange(i as int, to as int)),
        decreases to - i,
    {
        let ghost q = s@.subrange(i as int, to as int);
        assert(q.drop_first() =~= s@.subrange(i + 1, to as int));
        i = i + 1;
    }
    let ghost st = s@.subrange(i as int, to as int);
    assert(trim_start(st) == st);
    let mut j = to;
    while j > i && char_is_whitespace(s.get_char(j - 1))
        invariant
            from <= i <= j <= to <= s@.len(),
            st == s@.subrange(i as int, to as int),
            trim_end(st) == trim_end(s@.subrange(i as int, j as int)),
        decreases j - i,
    {
        let ghost q = s@.subrange(i as int, j as int);
        assert(q.drop_last() =~= s@.subrange(i as int, j - 1));
        j = j - 1;
    }
    let ghost e = s@.subrange(i as int, j as int);
    assert(trim_end(e) == e);
    String::from_str(s.substring_char(i, j))
}

/// The pieces of `s` between occurrences of `sep`, each trimmed of
/// whitespace.
pub fn split_trimmed(s: &str, sep: char) -> (r: Vec<String>)
    ensures
        r@.len() == split_on(s@, sep).len(),
        forall|i: int| 0 <= i < r@.len() ==> #[trigger] r@[i]@ == trim(split_on(s@, sep)[i]),
{
    let n = s.unicode_len();
    let mut out: Vec<String> = Vec::new();
    let mut start: usize = 0;
    let mut i: usize = 0;
    let ghost mut done: Seq<Seq<char>> = Seq::empty();
    assert(s@.subrange(0, 0) =~= Seq::<char>::empty());
    assert(split_on(Seq::<char>::empty(), sep) == seq![Seq::<char>::empty()]);
    assert(split_on(s@.subrange(0, 0), sep) =~= done.push(s@.subrange(0, 0)));
    while i < n
        invariant
            n == s@.len(),
            0 <= start <= i <= n,
            split_on(s@.subrange(0, i as int), sep) == done.push(s@.subrange(start as int, i as int)),
            out@.len() == done.len(),
            forall|k: int| 0 <= k < out@.len() ==> #[trigger] out@[k]@ == trim(done[k]),
        decreases n - i,
    {
        let c = s.get_char(i);
        let ghost pre = s@.subrange(0, i as int);
        let ghost post = s@.subrange(0, i as int + 1);
        assert(post.drop_last() =~= pre);
        assert(post.last() == c);
        let ghost cur = s@.subrange(start as int, i as int);
        if c == sep {
            let piece = trimmed_piece(s, start, i);
            out.push(piece);
            proof {
                done = done.push(cur);
            }
            start = i + 1;
            assert(s@.subrange(start as int, i as int + 1) =~= Seq::<char>::empty());
            assert(split_on(post, sep) =~= done.push(s@.subrange(start as int, i as int + 1)));
        } else {
            assert(s@.subrange(start as int, i as int + 1) =~= cur.push(c));
            assert(split_on(post, sep) =~= done.push(cur.push(c)));
        }
        i = i + 1;
    }
    let last = trimmed_piece(s, start, n);
    out.push(last);
    proof {
        assert(s@.subrange(0, n as int) =~= s@);
        done = done.push(s@.subrange(start as int, n as int));
    }
    out
}

} // verus!
