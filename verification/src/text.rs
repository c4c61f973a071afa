//! Text primitives over character sequences: conversion between strings and
//! character vectors, substring search, replacement, splitting, joining,
//! truncation, and decimal rendering and parsing of integers.

use vstd::prelude::*;

verus! {

/// Trusted: `String::push` appends one character to the end of the string
/// (its documentation: "Appends the given char to the end of this String").
pub assume_specification[ String::push ](s: &mut String, ch: char)
    ensures
        final(s)@ == old(s)@.push(ch),
;

// ---------------------------------------------------------------------------
// Specifications
// ---------------------------------------------------------------------------

/// `p` occurs in `s` starting at index `i`.
pub open spec fn matches_at(s: Seq<char>, p: Seq<char>, i: int) -> bool {
    0 <= i && i + p.len() <= s.len() && s.subrange(i, i + p.len()) == p
}

/// `p` occurs somewhere in `s` (`str::contains`).
pub open spec fn has_substring(s: Seq<char>, p: Seq<char>) -> bool {
    exists|i: int| matches_at(s, p, i)
}

/// The first index at or after `i` where `p` occurs in `s`.
pub open spec fn find_from(s: Seq<char>, p: Seq<char>, i: int) -> Option<int>
    decreases s.len() + 1 - i,
{
    if i < 0 || i + p.len() > s.len() {
        None
    } else if matches_at(s, p, i) {
        Some(i)
    } else {
        find_from(s, p, i + 1)
    }
}

/// Every non-overlapping occurrence of `p`, scanning from the left, replaced
/// by `r` (`str::replace` for a non-empty pattern).
pub open spec fn replace_all(s: Seq<char>, p: Seq<char>, r: Seq<char>) -> Seq<char>
    decreases s.len(),
{
    if p.len() == 0 || s.len() < p.len() {
        s
    } else if s.take(p.len() as int) == p {
        r + replace_all(s.skip(p.len() as int), p, r)
    } else {
        seq![s[0]] + replace_all(s.skip(1), p, r)
    }
}

/// The text before the first occurrence of `p`, or all of `s` when `p`
/// does not occur (the first item of `str::split`).
pub open spec fn before_first(s: Seq<char>, p: Seq<char>) -> Seq<char> {
    match find_from(s, p, 0) {
        Some(i) => s.take(i),
        None => s,
    }
}

/// The second item of `str::split` by a non-empty pattern: the text between
/// the first and the second occurrence of `p` (or to the end), if `p` occurs.
pub open spec fn second_segment(s: Seq<char>, p: Seq<char>) -> Option<Seq<char>> {
    match find_from(s, p, 0) {
        Some(i) => Some(before_first(s.skip(i + p.len()), p)),
        None => None,
    }
}

/// The parts, with `sep` between each two neighbours (`[String]::join`).
pub open spec fn join_with(parts: Seq<Seq<char>>, sep: Seq<char>) -> Seq<char>
    decreases parts.len(),
{
    if parts.len() == 0 {
        Seq::empty()
    } else if parts.len() == 1 {
        parts[0]
    } else {
        join_with(parts.drop_last(), sep) + sep + parts.last()
    }
}

/// The first `n` characters of `s`, or all of them when there are fewer.
pub open spec fn take_chars(s: Seq<char>, n: nat) -> Seq<char> {
    if n < s.len() {
        s.take(n as int)
    } else {
        s
    }
}

/// The ASCII character of a decimal digit.
pub open spec fn digit_char(d: nat) -> char {
    (('0' as nat) + d) as char
}

/// The decimal text of a natural number, without leading zeros.
pub open spec fn decimal(n: nat) -> Seq<char>
    decreases n,
{
    if n < 10 {
        seq![digit_char(n)]
    } else {
        decimal(n / 10).push(digit_char(n % 10))
    }
}

/// The decimal text of an integer, with a leading `-` when it is negative
/// (the `Display` of Rust's integer types).
pub open spec fn signed_decimal(n: int) -> Seq<char> {
    if n < 0 {
        seq!['-'] + decimal((-n) as nat)
    } else {
        decimal(n as nat)
    }
}

pub open spec fn is_digit(c: char) -> bool {
    '0' <= c && c <= '9'
}

pub open spec fn digit_value(c: char) -> nat {
    ((c as int) - ('0' as int)) as nat
}

pub open spec fn all_digits(d: Seq<char>) -> bool {
    forall|i: int| 0 <= i < d.len() ==> is_digit(#[trigger] d[i])
}

/// The value of a sequence of decimal digits.
pub open spec fn digits_value(d: Seq<char>) -> nat
    decreases d.len(),
{
    if d.len() == 0 {
        0
    } else {
        digits_value(d.drop_last()) * 10 + digit_value(d.last())
    }
}

/// The integer that `s` spells: an optional `+` or `-`, then one or more
/// decimal digits and nothing else.
pub open spec fn decimal_value(s: Seq<char>) -> Option<int> {
    let neg = s.len() > 0 && s[0] == '-';
    let signed = s.len() > 0 && (s[0] == '-' || s[0] == '+');
    let d = if signed { s.skip(1) } else { s };
    if d.len() == 0 || !all_digits(d) {
        None
    } else if neg {
        Some(-(digits_value(d) as int))
    } else {
        Some(digits_value(d) as int)
    }
}

/// What `str::parse::<i64>` returns, with the error as `None`.
pub open spec fn parse_i64_spec(s: Seq<char>) -> Option<i64> {
    match decimal_value(s) {
        Some(v) => if i64::MIN <= v <= i64::MAX { Some(v as i64) } else { None },
        None => None,
    }
}

/// What `str::parse::<i32>` returns, with the error as `None`.
pub open spec fn parse_i32_spec(s: Seq<char>) -> Option<i32> {
    match decimal_value(s) {
        Some(v) => if i32::MIN <= v <= i32::MAX { Some(v as i32) } else { None },
        None => None,
    }
}

// ---------------------------------------------------------------------------
// Lemmas
// ---------------------------------------------------------------------------

/// `find_from` gives the first occurrence at or after `i`, and `None` only
/// when there is none.
pub proof fn lemma_find_from(s: Seq<char>, p: Seq<char>, i: int)
    requires
        0 <= i,
    ensures
        find_from(s, p, i) matches Some(k) ==> i <= k && matches_at(s, p, k) && forall|j: int|
            i <= j < k ==> !matches_at(s, p, j),
        find_from(s, p, i) is None ==> forall|j: int| i <= j ==> !matches_at(s, p, j),
    decreases s.len() + 1 - i,
{
    if i + p.len() > s.len() {
    } else if matches_at(s, p, i) {
    } else {
        lemma_find_from(s, p, i + 1);
    }
}

/// `has_substring` holds exactly when `find_from` from the start succeeds.
pub proof fn lemma_find_has_substring(s: Seq<char>, p: Seq<char>)
    ensures
        has_substring(s, p) <==> find_from(s, p, 0) is Some,
{
    lemma_find_from(s, p, 0);
    if find_from(s, p, 0) is Some {
        let k = find_from(s, p, 0)->0;
        assert(matches_at(s, p, k));
    }
}

// ---------------------------------------------------------------------------
// Conversions
// ---------------------------------------------------------------------------

/// The characters of a string, in order.
pub fn chars_of(s: &str) -> (v: Vec<char>)
    ensures
        v@ == s@,
{
    broadcast use vstd::string::group_string_axioms;
    let mut v: Vec<char> = Vec::new();
    for c in it: s.chars()
        invariant
            it.seq() == s@,
            v@ == it.seq().take(it.index() as int),
    {
        v.push(c);
    }
    v
}

/// The string made of the given characters, in order.
pub fn string_from(v: &Vec<char>) -> (s: String)
    ensures
        s@ == v@,
{
    let mut s = String::new();
    let mut i: usize = 0;
    while i < v.len()
        invariant
            i <= v.len(),
            s@ == v@.take(i as int),
        decreases v.len() - i,
    {
        s.push(v[i]);
        i += 1;
        assert(s@ =~= v@.take(i as int));
    }
    assert(v@.take(v.len() as int) =~= v@);
    s
}

/// Appends the characters of `t` to `out`.
pub fn push_all(out: &mut Vec<char>, t: &Vec<char>)
    ensures
        final(out)@ == old(out)@ + t@,
{
    let mut i: usize = 0;
    while i < t.len()
        invariant
            i <= t.len(),
            out@ == old(out)@ + t@.take(i as int),
        decreases t.len() - i,
    {
        out.push(t[i]);
        i += 1;
        assert(out@ =~= old(out)@ + t@.take(i as int));
    }
    assert(t@.take(t.len() as int) =~= t@);
}

/// The concatenation of two strings.
pub fn concat_str(a: &str, b: &str) -> (r: String)
    ensures
        r@ == a@ + b@,
{
    let mut v = chars_of(a);
    let w = chars_of(b);
    push_all(&mut v, &w);
    string_from(&v)
}

// ---------------------------------------------------------------------------
// Search
// ---------------------------------------------------------------------------

/// Whether `p` occurs in `s` at index `i`.
pub fn match_at(s: &Vec<char>, p: &Vec<char>, i: usize) -> (b: bool)
    requires
        i <= s.len(),
    ensures
        b == matches_at(s@, p@, i as int),
{
    if p.len() > s.len() - i {
        return false;
    }
    let mut k: usize = 0;
    while k < p.len()
        invariant
            k <= p.len(),
            i + p.len() <= s.len(),
            forall|j: int| 0 <= j < k ==> s@[i + j] == p@[j],
        decreases p.len() - k,
    {
        if s[i + k] != p[k] {
            assert(s@.subrange(i as int, i + p.len())[k as int] != p@[k as int]);
            return false;
        }
        k += 1;
    }
    assert(s@.subrange(i as int, i + p.len()) =~= p@);
    true
}

/// The first index at or after `from` where `p` occurs in `s`.
pub fn find_in(s: &Vec<char>, p: &Vec<char>, from: usize) -> (r: Option<usize>)
    requires
        from <= s.len(),
    ensures
        r matches Some(k) ==> find_from(s@, p@, from as int) == Some(k as int),
        r is None ==> find_from(s@, p@, from as int) is None,
{
    if p.len() > s.len() {
        return None;
    }
    let last = s.len() - p.len();
    let mut i = from;
    if i > last {
        return None;
    }
    loop
        invariant
            from <= i <= last,
            last + p.len() == s.len(),
            find_from(s@, p@, from as int) == find_from(s@, p@, i as int),
        decreases last - i,
    {
        if match_at(s, p, i) {
            return Some(i);
        }
        if i == last {
            return None;
        }
        i += 1;
    }
}

/// Whether `p` occurs in `s` (`str::contains`).
pub fn contains_text(s: &str, p: &str) -> (b: bool)
    ensures
        b == has_substring(s@, p@),
{
    let sv = chars_of(s);
    let pv = chars_of(p);
    let r = find_in(&sv, &pv, 0);
    proof {
        lemma_find_has_substring(s@, p@);
    }
    r.is_some()
}


/// The characters of `s` from index `from` up to, not including, `to`.
pub fn slice_chars(s: &Vec<char>, from: usize, to: usize) -> (v: Vec<char>)
    requires
        from <= to <= s.len(),
    ensures
        v@ == s@.subrange(from as int, to as int),
{
    let mut v: Vec<char> = Vec::new();
    let mut i = from;
    while i < to
        invariant
            from <= i <= to <= s.len(),
            v@ == s@.subrange(from as int, i as int),
        decreases to - i,
    {
        v.push(s[i]);
        i += 1;
        assert(v@ =~= s@.subrange(from as int, i as int));
    }
    v
}

// ---------------------------------------------------------------------------
// Replacement, splitting, joining, truncation
// ---------------------------------------------------------------------------

/// Every non-overlapping occurrence of `p` in `s`, from the left, replaced by `r`.
pub fn replace_chars(s: &Vec<char>, p: &Vec<char>, r: &Vec<char>) -> (out: Vec<char>)
    requires
        p.len() > 0,
    ensures
        out@ == replace_all(s@, p@, r@),
{
    let mut out: Vec<char> = Vec::new();
    let mut i: usize = 0;
    assert(s@.skip(0) =~= s@);
    assert(out@ + replace_all(s@, p@, r@) =~= replace_all(s@, p@, r@));
    while i < s.len()
        invariant
            i <= s.len(),
            p.len() > 0,
            out@ + replace_all(s@.skip(i as int), p@, r@) == replace_all(s@, p@, r@),
        decreases s.len() - i,
    {
        let ghost t = s@.skip(i as int);
        let ghost before = out@;
        if p.len() <= s.len() - i && match_at(s, p, i) {
            proof {
                assert(t.take(p.len() as int) =~= s@.subrange(i as int, i + p.len()));
                assert(t.skip(p.len() as int) =~= s@.skip(i + p.len()));
                assert(replace_all(t, p@, r@) == r@ + replace_all(t.skip(p.len() as int), p@, r@));
            }
            push_all(&mut out, r);
            proof {
                let rest = replace_all(s@.skip(i + p.len()), p@, r@);
                assert(before + (r@ + rest) =~= (before + r@) + rest);
            }
            i += p.len();
        } else {
            proof {
                if t.len() >= p.len() {
                    assert(t.take(p.len() as int) =~= s@.subrange(i as int, i + p.len()));
                }
                assert(t.skip(1) =~= s@.skip(i + 1));
                if t.len() < p.len() {
                    assert(replace_all(t.skip(1), p@, r@) == t.skip(1));
                    assert(t =~= seq![t[0]] + t.skip(1));
                }
                assert(replace_all(t, p@, r@) == seq![t[0]] + replace_all(t.skip(1), p@, r@));
            }
            out.push(s[i]);
            proof {
                let rest = replace_all(s@.skip(i + 1), p@, r@);
                assert(before + (seq![s@[i as int]] + rest) =~= before.push(s@[i as int]) + rest);
            }
            i += 1;
        }
    }
    proof {
        assert(s@.skip(s.len() as int) =~= Seq::<char>::empty());
        assert(out@ + Seq::<char>::empty() =~= out@);
    }
    out
}

/// `s` with every non-overlapping occurrence of `p`, from the left, replaced
/// by `r` (`str::replace`).
pub fn replace_text(s: &str, p: &str, r: &str) -> (out: String)
    requires
        p@.len() > 0,
    ensures
        out@ == replace_all(s@, p@, r@),
{
    let sv = chars_of(s);
    let pv = chars_of(p);
    let rv = chars_of(r);
    let ov = replace_chars(&sv, &pv, &rv);
    string_from(&ov)
}

/// The characters of `s` before the first occurrence of `p`, or all of them.
pub fn before_first_chars(s: &Vec<char>, p: &Vec<char>) -> (v: Vec<char>)
    ensures
        v@ == before_first(s@, p@),
{
    match find_in(s, p, 0) {
        Some(i) => {
            proof {
                lemma_find_from(s@, p@, 0);
            }
            slice_chars(s, 0, i)
        },
        None => slice_chars(s, 0, s.len()),
    }
}

/// The text between the first and the second occurrence of `p` (or to the
/// end), if `p` occurs in `s`.
pub fn second_segment_chars(s: &Vec<char>, p: &Vec<char>) -> (v: Option<Vec<char>>)
    ensures
        v matches Some(w) ==> second_segment(s@, p@) == Some(w@),
        v is None ==> second_segment(s@, p@) is None,
{
    match find_in(s, p, 0) {
        Some(i) => {
            proof {
                lemma_find_from(s@, p@, 0);
                assert(matches_at(s@, p@, i as int));
                assert(i + p@.len() <= s@.len());
            }
            assert(i as int + p.len() as int <= s.len() as int);
            let start = i + p.len();
            let rest = slice_chars(s, start, s.len());
            assert(rest@ =~= s@.skip(i + p.len()));
            Some(before_first_chars(&rest, p))
        },
        None => None,
    }
}

/// The strings, with `sep` between each two neighbours (`[String]::join`).
pub fn join_texts(parts: &Vec<String>, sep: &str) -> (r: String)
    ensures
        r@ == join_with(parts@.map_values(|x: String| x@), sep@),
{
    let ghost views = parts@.map_values(|x: String| x@);
    let sepv = chars_of(sep);
    let mut out: Vec<char> = Vec::new();
    let mut i: usize = 0;
    while i < parts.len()
        invariant
            i <= parts.len(),
            views == parts@.map_values(|x: String| x@),
            sepv@ == sep@,
            out@ == join_with(views.take(i as int), sep@),
        decreases parts.len() - i,
    {
        let pv = chars_of(parts[i].as_str());
        if i > 0 {
            push_all(&mut out, &sepv);
        }
        push_all(&mut out, &pv);
        proof {
            let next = views.take(i + 1);
            assert(next.drop_last() =~= views.take(i as int));
            assert(next.last() == parts@[i as int]@);
            if i == 0 {
                assert(next.len() == 1);
                assert(out@ =~= next[0]);
            }
        }
        i += 1;
    }
    assert(views.take(parts.len() as int) =~= views);
    string_from(&out)
}

/// The first `n` characters of `s`, or all of `s` when it is shorter.
pub fn take_text(s: &str, n: usize) -> (r: String)
    ensures
        r@ == take_chars(s@, n as nat),
{
    let v = chars_of(s);
    let end = if n < v.len() { n } else { v.len() };
    let w = slice_chars(&v, 0, end);
    assert(v@.subrange(0, end as int) =~= take_chars(s@, n as nat));
    string_from(&w)
}


// ---------------------------------------------------------------------------
// Decimal rendering and parsing
// ---------------------------------------------------------------------------

/// The decimal digits of a natural number: non-empty, all digits, with the
/// number as their value.
pub proof fn lemma_decimal(n: nat)
    ensures
        decimal(n).len() > 0,
        all_digits(decimal(n)),
        digits_value(decimal(n)) == n,
    decreases n,
{
    if n < 10 {
        let d = decimal(n);
        assert(d.drop_last() =~= Seq::<char>::empty());
        assert(digits_value(d.drop_last()) == 0);
        assert(digit_value(digit_char(n)) == n);
    } else {
        lemma_decimal(n / 10);
        let d = decimal(n);
        assert(d.drop_last() =~= decimal(n / 10));
        assert(d.last() == digit_char(n % 10));
        assert((n / 10) * 10 + n % 10 == n) by (nonlinear_arith);
        assert(digit_value(digit_char(n % 10)) == n % 10);
        assert(all_digits(d)) by {
            assert forall|i: int| 0 <= i < d.len() implies is_digit(#[trigger] d[i]) by {
                if i < d.len() - 1 {
                    assert(d[i] == decimal(n / 10)[i]);
                }
            }
        }
    }
}

/// Appends the decimal text of `n` to `out`.
pub fn push_decimal(out: &mut Vec<char>, n: u64)
    ensures
        final(out)@ == old(out)@ + decimal(n as nat),
    decreases n,
{
    let ghost start = out@;
    if n >= 10 {
        push_decimal(out, n / 10);
    }
    let d: u8 = (n % 10) as u8;
    let c: char = (48u8 + d) as char;
    assert(c == digit_char((n % 10) as nat));
    out.push(c);
    proof {
        if n >= 10 {
            assert(out@ =~= start + decimal(n as nat));
        } else {
            assert(out@ =~= start + decimal(n as nat));
        }
    }
}

/// The decimal text of an unsigned number (`u64::to_string`).
pub fn format_u64(n: u64) -> (r: String)
    ensures
        r@ == decimal(n as nat),
{
    let mut v: Vec<char> = Vec::new();
    push_decimal(&mut v, n);
    assert(v@ =~= decimal(n as nat));
    string_from(&v)
}

/// The decimal text of a `usize` (`usize::to_string`).
pub fn format_usize(n: usize) -> (r: String)
    ensures
        r@ == decimal(n as nat),
{
    format_u64(n as u64)
}

/// The decimal text of a signed number (`i64::to_string`).
pub fn format_i64(n: i64) -> (r: String)
    ensures
        r@ == signed_decimal(n as int),
{
    let mut v: Vec<char> = Vec::new();
    if n < 0 {
        v.push('-');
        let m: u64 = if n == i64::MIN {
            9223372036854775808u64
        } else {
            (-n) as u64
        };
        push_decimal(&mut v, m);
        assert(v@ =~= signed_decimal(n as int));
    } else {
        push_decimal(&mut v, n as u64);
        assert(v@ =~= signed_decimal(n as int));
    }
    string_from(&v)
}

/// The decimal text of an `i32` (`i32::to_string`).
pub fn format_i32(n: i32) -> (r: String)
    ensures
        r@ == signed_decimal(n as int),
{
    format_i64(n as i64)
}

/// The value of the digits in `d` grows with each further digit.
proof fn lemma_digits_value_step(d: Seq<char>, k: int)
    requires
        0 <= k < d.len(),
    ensures
        d.take(k + 1).drop_last() == d.take(k),
        d.take(k + 1).last() == d[k],
        digits_value(d.take(k + 1)) == digits_value(d.take(k)) * 10 + digit_value(d[k]),
        digits_value(d.take(k + 1)) >= digits_value(d.take(k)),
{
    assert(d.take(k + 1).drop_last() =~= d.take(k));
}

/// What `str::parse::<i64>` returns, with the error as `None`.
pub fn parse_i64(s: &str) -> (r: Option<i64>)
    ensures
        r == parse_i64_spec(s@),
{
    let v = chars_of(s);
    let n = v.len();
    let neg = n > 0 && v[0] == '-';
    let signed = n > 0 && (v[0] == '-' || v[0] == '+');
    let start: usize = if signed { 1 } else { 0 };
    let ghost d = if signed { s@.skip(1) } else { s@ };
    assert(d =~= v@.skip(start as int));
    assert(signed == (s@.len() > 0 && (s@[0] == '-' || s@[0] == '+')));
    assert(neg == (s@.len() > 0 && s@[0] == '-'));
    if start == n {
        assert(d.len() == 0);
        return None;
    }
    let limit: u128 = 9223372036854775808u128;
    let mut acc: u128 = 0;
    let mut big = false;
    let mut i = start;
    assert(d.take(0) =~= Seq::<char>::empty());
    while i < n
        invariant
            start <= i <= n,
            n == v@.len(),
            v@ == s@,
            d == v@.skip(start as int),
            d == (if s@.len() > 0 && (s@[0] == '-' || s@[0] == '+') { s@.skip(1) } else { s@ }),
            neg == (s@.len() > 0 && s@[0] == '-'),
            limit == 9223372036854775808u128,
            all_digits(d.take(i - start)),
            !big ==> acc == digits_value(d.take(i - start)) && acc <= limit,
            big ==> digits_value(d.take(i - start)) > limit,
        decreases n - i,
    {
        let c = v[i];
        let k: usize = i - start;
        assert(d[k as int] == c);
        if !('0' <= c && c <= '9') {
            assert(!is_digit(d[k as int]));
            assert(!all_digits(d));
            assert(decimal_value(s@) is None);
            return None;
        }
        proof {
            lemma_digits_value_step(d, k as int);
            assert(all_digits(d.take(k + 1))) by {
                assert forall|j: int| 0 <= j < k + 1 implies is_digit(#[trigger] d.take(k + 1)[j]) by {
                    if j < k {
                        assert(d.take(k + 1)[j] == d.take(k as int)[j]);
                    }
                }
            }
        }
        let dv: u128 = ((c as u32) - 48) as u128;
        assert(dv == digit_value(c));
        if !big {
            let next = acc * 10 + dv;
            if next > limit {
                big = true;
            } else {
                acc = next;
            }
        }
        i += 1;
    }
    assert(d.take(n - start) =~= d);
    if neg {
        if big {
            None
        } else if acc == limit {
            Some(i64::MIN)
        } else {
            Some(-(acc as i64))
        }
    } else {
        if big || acc > 9223372036854775807u128 {
            None
        } else {
            Some(acc as i64)
        }
    }
}

/// What `str::parse::<i32>` returns, with the error as `None`.
pub fn parse_i32(s: &str) -> (r: Option<i32>)
    ensures
        r == parse_i32_spec(s@),
{
    match parse_i64(s) {
        Some(x) => if i32::MIN as i64 <= x && x <= i32::MAX as i64 {
            Some(x as i32)
        } else {
            None
        },
        None => None,
    }
}

/// Reading back what an `i64` renders to gives the same number: what the
/// crawl counters store is what they read.
pub proof fn lemma_parse_format_i64(n: i64)
    ensures
        parse_i64_spec(signed_decimal(n as int)) == Some(n),
{
    if n < 0 {
        let m = (-(n as int)) as nat;
        lemma_decimal(m);
        let s = signed_decimal(n as int);
        assert(s.skip(1) =~= decimal(m));
        assert(s[0] == '-');
    } else {
        lemma_decimal(n as nat);
        let s = decimal(n as nat);
        assert(is_digit(s[0]));
    }
}


/// Whether two strings hold the same characters.
pub fn text_equals(a: &str, b: &str) -> (r: bool)
    ensures
        r == (a@ == b@),
{
    let av = chars_of(a);
    let bv = chars_of(b);
    if av.len() != bv.len() {
        return false;
    }
    let mut i: usize = 0;
    while i < av.len()
        invariant
            i <= av.len(),
            av.len() == bv.len(),
            av@ == a@,
            bv@ == b@,
            forall|j: int| 0 <= j < i ==> av@[j] == bv@[j],
        decreases av.len() - i,
    {
        if av[i] != bv[i] {
            assert(a@[i as int] != b@[i as int]);
            return false;
        }
        i += 1;
    }
    assert(av@ =~= bv@);
    true
}

/// Whether any of `markers` occurs in `s`.
pub fn contains_any(s: &str, markers: &Vec<&str>) -> (r: bool)
    ensures
        r == exists|i: int| 0 <= i < markers.len() && has_substring(s@, #[trigger] markers@[i]@),
{
    let mut i: usize = 0;
    while i < markers.len()
        invariant
            i <= markers.len(),
            forall|j: int| 0 <= j < i ==> !has_substring(s@, #[trigger] markers@[j]@),
        decreases markers.len() - i,
    {
        if contains_text(s, markers[i]) {
            return true;
        }
        i += 1;
    }
    false
}


/// Appends the characters of `s` to `out`.
pub fn push_str(out: &mut Vec<char>, s: &str)
    ensures
        final(out)@ == old(out)@ + s@,
{
    let v = chars_of(s);
    push_all(out, &v);
}

/// The text `prefix`, then the decimal digits of `n`, then `suffix`.
pub fn numbered_text(prefix: &str, n: u64, suffix: &str) -> (r: String)
    ensures
        r@ == prefix@ + decimal(n as nat) + suffix@,
{
    let mut v = chars_of(prefix);
    push_decimal(&mut v, n);
    push_str(&mut v, suffix);
    string_from(&v)
}


/// Text in which a pattern does not occur is left as it is by replacing
/// that pattern.
pub proof fn lemma_replace_absent(s: Seq<char>, p: Seq<char>, r: Seq<char>)
    requires
        !has_substring(s, p),
    ensures
        replace_all(s, p, r) == s,
    decreases s.len(),
{
    if p.len() == 0 || s.len() < p.len() {
    } else if s.take(p.len() as int) == p {
        assert(s.subrange(0, p.len() as int) =~= s.take(p.len() as int));
        assert(matches_at(s, p, 0));
    } else {
        let t = s.skip(1);
        assert forall|i: int| !matches_at(t, p, i) by {
            if matches_at(t, p, i) {
                assert(t.subrange(i, i + p.len()) =~= s.subrange(i + 1, i + 1 + p.len()));
                assert(matches_at(s, p, i + 1));
            }
        }
        lemma_replace_absent(t, p, r);
        assert(seq![s[0]] + t =~= s);
    }
}

/// Replacing a pattern in text where it occurs once, between parts that do
/// not hold its first character, replaces that occurrence alone.
pub proof fn lemma_replace_single(a: Seq<char>, p: Seq<char>, b: Seq<char>, r: Seq<char>)
    requires
        p.len() > 0,
        !a.contains(p[0]),
        !b.contains(p[0]),
    ensures
        replace_all(a + p + b, p, r) == a + r + b,
    decreases a.len(),
{
    let s = a + p + b;
    if a.len() == 0 {
        assert(s =~= p + b);
        assert(s.take(p.len() as int) =~= p);
        assert(s.skip(p.len() as int) =~= b);
        assert forall|i: int| !matches_at(b, p, i) by {
            if matches_at(b, p, i) {
                assert(b.subrange(i, i + p.len())[0] == b[i]);
            }
        }
        lemma_replace_absent(b, p, r);
        assert(a + r + b =~= r + b);
    } else {
        assert(s[0] == a[0]);
        assert(s.take(p.len() as int)[0] == a[0]);
        assert(s.take(p.len() as int) != p);
        lemma_replace_single(a.skip(1), p, b, r);
        assert(s.skip(1) =~= a.skip(1) + p + b);
        assert(seq![s[0]] + (a.skip(1) + r + b) =~= a + r + b);
    }
}

/// A text without a character does not hold it as a one-character pattern.
pub proof fn lemma_char_pattern_absent(s: Seq<char>, c: char)
    requires
        !s.contains(c),
    ensures
        !has_substring(s, seq![c]),
{
    assert forall|i: int| !matches_at(s, seq![c], i) by {
        if matches_at(s, seq![c], i) {
            assert(s.subrange(i, i + 1)[0] == s[i]);
        }
    }
}

/// Replacing every occurrence of a single character by text without it
/// leaves no occurrence of that character.
pub proof fn lemma_replace_removes_char(s: Seq<char>, c: char, r: Seq<char>)
    requires
        !r.contains(c),
    ensures
        !replace_all(s, seq![c], r).contains(c),
    decreases s.len(),
{
    let p = seq![c];
    if s.len() < 1 {
    } else if s.take(1) == p {
        lemma_replace_removes_char(s.skip(1), c, r);
        let rest = replace_all(s.skip(1), p, r);
        assert(replace_all(s, p, r) == r + rest);
        assert forall|i: int| 0 <= i < (r + rest).len() implies (r + rest)[i] != c by {
            if i < r.len() {
                assert((r + rest)[i] == r[i]);
            } else {
                assert((r + rest)[i] == rest[i - r.len()]);
            }
        }
    } else {
        lemma_replace_removes_char(s.skip(1), c, r);
        let rest = replace_all(s.skip(1), p, r);
        assert(s.take(1) =~= seq![s[0]]);
        assert(s[0] != c);
        assert(replace_all(s, p, r) == seq![s[0]] + rest);
        assert forall|i: int| 0 <= i < (seq![s[0]] + rest).len() implies (seq![s[0]] + rest)[i] != c by {
            if i >= 1 {
                assert((seq![s[0]] + rest)[i] == rest[i - 1]);
            }
        }
    }
}

/// Replacing occurrences of any pattern by text without a character keeps
/// that character out of text that did not hold it.
pub proof fn lemma_replace_keeps_out(s: Seq<char>, p: Seq<char>, r: Seq<char>, c: char)
    requires
        !s.contains(c),
        !r.contains(c),
    ensures
        !replace_all(s, p, r).contains(c),
    decreases s.len(),
{
    if p.len() == 0 || s.len() < p.len() {
    } else if s.take(p.len() as int) == p {
        assert forall|i: int| 0 <= i < s.skip(p.len() as int).len() implies s.skip(p.len() as int)[i] != c by {
            assert(s.skip(p.len() as int)[i] == s[i + p.len()]);
        }
        lemma_replace_keeps_out(s.skip(p.len() as int), p, r, c);
        let rest = replace_all(s.skip(p.len() as int), p, r);
        assert forall|i: int| 0 <= i < (r + rest).len() implies (r + rest)[i] != c by {
            if i < r.len() {
                assert((r + rest)[i] == r[i]);
            } else {
                assert((r + rest)[i] == rest[i - r.len()]);
            }
        }
    } else {
        assert forall|i: int| 0 <= i < s.skip(1).len() implies s.skip(1)[i] != c by {
            assert(s.skip(1)[i] == s[i + 1]);
        }
        lemma_replace_keeps_out(s.skip(1), p, r, c);
        let rest = replace_all(s.skip(1), p, r);
        assert(s[0] != c);
        assert forall|i: int| 0 <= i < (seq![s[0]] + rest).len() implies (seq![s[0]] + rest)[i] != c by {
            if i >= 1 {
                assert((seq![s[0]] + rest)[i] == rest[i - 1]);
            }
        }
    }
}

/// The text before the first occurrence of a single character does not
/// hold that character.
pub proof fn lemma_before_first_char(s: Seq<char>, c: char)
    ensures
        !before_first(s, seq![c]).contains(c),
{
    let p = seq![c];
    lemma_find_from(s, p, 0);
    assert forall|i: int| 0 <= i < before_first(s, p).len() implies before_first(s, p)[i] != c by {
        if s[i] == c {
            assert(s.subrange(i, i + 1) =~= p);
            assert(matches_at(s, p, i));
        }
    }
}

} // verus!
