//! Character-level helpers: conversion between strings and character
//! sequences, whitespace trimming, case-folded comparison and searching.

use vstd::prelude::*;
use vstd::slice::slice_subrange;
use vstd::std_specs::iter::IteratorSpec;

verus! {

/// The characters that carry the Unicode `White_Space` property.
pub open spec fn is_space(c: char) -> bool {
    let n = c as u32;
    (0x09 <= n <= 0x0D) || n == 0x20 || n == 0x85 || n == 0xA0 || n == 0x1680 || (0x2000 <= n
        <= 0x200A) || n == 0x2028 || n == 0x2029 || n == 0x202F || n == 0x205F || n == 0x3000
}

/// `x` without its leading whitespace.
pub open spec fn trim_front(x: Seq<char>) -> Seq<char>
    decreases x.len(),
{
    if x.len() > 0 && is_space(x[0]) {
        trim_front(x.drop_first())
    } else {
        x
    }
}

/// `x` without its trailing whitespace.
pub open spec fn trim_back(x: Seq<char>) -> Seq<char>
    decreases x.len(),
{
    if x.len() > 0 && is_space(x.last()) {
        trim_back(x.drop_last())
    } else {
        x
    }
}

/// `x` without leading and trailing whitespace.
pub open spec fn trimmed(x: Seq<char>) -> Seq<char> {
    trim_back(trim_front(x))
}

/// Whether `c` equals the lower-case pattern character `p` when ASCII case is
/// ignored.
pub open spec fn matches_fold(c: char, p: char) -> bool {
    c == p || (0x41 <= c as u32 <= 0x5A && c as u32 + 32 == p as u32)
}

/// Whether `x` equals the lower-case pattern `pat` when ASCII case is ignored.
pub open spec fn eq_fold(x: Seq<char>, pat: Seq<char>) -> bool {
    x.len() == pat.len() && forall|i: int|
        0 <= i < pat.len() ==> matches_fold(#[trigger] x[i], pat[i])
}

/// Whether `x` ends in the lower-case pattern `pat` when ASCII case is ignored.
pub open spec fn ends_with_fold(x: Seq<char>, pat: Seq<char>) -> bool {
    x.len() >= pat.len() && eq_fold(x.subrange(x.len() - pat.len(), x.len() as int), pat)
}

/// Whether `pat` occurs in `s` at offset `i`.
pub open spec fn occurs_at(s: Seq<char>, pat: Seq<char>, i: int) -> bool {
    0 <= i && i + pat.len() <= s.len() && s.subrange(i, i + pat.len()) == pat
}

/// Whether `pat` occurs somewhere in `s`.
pub open spec fn contains(s: Seq<char>, pat: Seq<char>) -> bool {
    exists|i: int| occurs_at(s, pat, i)
}

/// The number of characters from `start` up to, and without, the next `stop`
/// character, or up to the end where there is none.
pub open spec fn run_len(s: Seq<char>, start: int, stop: char) -> nat
    decreases s.len() - start,
{
    if start < 0 || start >= s.len() || s[start] == stop {
        0
    } else {
        1 + run_len(s, start + 1, stop)
    }
}

/// Whether `c` is a whitespace character.
pub fn is_whitespace(c: char) -> (r: bool)
    ensures
        r == is_space(c),
{
    let n: u32 = c as u32;
    (0x09 <= n && n <= 0x0D) || n == 0x20 || n == 0x85 || n == 0xA0 || n == 0x1680 || (0x2000
        <= n && n <= 0x200A) || n == 0x2028 || n == 0x2029 || n == 0x202F || n == 0x205F || n
        == 0x3000
}

/// The part of `x` that is left when whitespace is removed at both ends.
pub fn trim<'a>(x: &'a [char]) -> (r: &'a [char])
    ensures
        r@ == trimmed(x@),
{
    let n: usize = x.len();
    let mut lo: usize = 0;
    assert(x@.subrange(0, n as int) =~= x@);
    while lo < n && is_whitespace(x[lo])
        invariant
            lo <= n,
            n == x@.len(),
            trim_front(x@) == trim_front(x@.subrange(lo as int, n as int)),
        decreases n - lo,
    {
        assert(x@.subrange(lo as int, n as int).drop_first() =~= x@.subrange(lo + 1, n as int));
        lo += 1;
    }
    let mut hi: usize = n;
    while hi > lo && is_whitespace(x[hi - 1])
        invariant
            lo <= hi <= n,
            n == x@.len(),
            trimmed(x@) == trim_back(x@.subrange(lo as int, hi as int)),
        decreases hi - lo,
    {
        assert(x@.subrange(lo as int, hi as int).drop_last() =~= x@.subrange(
            lo as int,
            hi - 1,
        ));
        hi -= 1;
    }
    slice_subrange(x, lo, hi)
}

/// Whether two character slices hold the same characters.
pub fn same_chars(a: &[char], b: &[char]) -> (r: bool)
    ensures
        r == (a@ == b@),
{
    if a.len() != b.len() {
        return false;
    }
    let n: usize = a.len();
    let mut i: usize = 0;
    while i < n
        invariant
            i <= n,
            n == a@.len(),
            n == b@.len(),
            forall|j: int| 0 <= j < i ==> a@[j] == b@[j],
        decreases n - i,
    {
        if a[i] != b[i] {
            return false;
        }
        i += 1;
    }
    assert(a@ =~= b@);
    true
}

/// Whether `c` is the lower-case pattern character `p`, ASCII case ignored.
pub fn char_matches_fold(c: char, p: char) -> (r: bool)
    ensures
        r == matches_fold(c, p),
{
    let n: u32 = c as u32;
    c == p || (0x41 <= n && n <= 0x5A && n + 32 == p as u32)
}

/// Whether `x` is the lower-case pattern `pat`, ASCII case ignored.
pub fn equals_fold(x: &[char], pat: &[char]) -> (r: bool)
    ensures
        r == eq_fold(x@, pat@),
{
    if x.len() != pat.len() {
        return false;
    }
    let n: usize = pat.len();
    let mut i: usize = 0;
    while i < n
        invariant
            i <= n,
            n == x@.len(),
            n == pat@.len(),
            forall|j: int| 0 <= j < i ==> matches_fold(#[trigger] x@[j], pat@[j]),
        decreases n - i,
    {
        if !char_matches_fold(x[i], pat[i]) {
            return false;
        }
        i += 1;
    }
    true
}

/// Whether `x` ends in the lower-case pattern `pat`, ASCII case ignored.
pub fn has_suffix_fold(x: &[char], pat: &[char]) -> (r: bool)
    ensures
        r == ends_with_fold(x@, pat@),
{
    if x.len() < pat.len() {
        return false;
    }
    let tail = slice_subrange(x, x.len() - pat.len(), x.len());
    equals_fold(tail, pat)
}

/// Whether `pat` occurs somewhere in `s`.
pub fn has_substring(s: &[char], pat: &[char]) -> (r: bool)
    ensures
        r == contains(s@, pat@),
{
    let n: usize = s.len();
    let m: usize = pat.len();
    if n < m {
        return false;
    }
    let last: usize = n - m;
    let mut i: usize = 0;
    loop
        invariant
            i <= last,
            last == n - m,
            n == s@.len(),
            m == pat@.len(),
            forall|j: int| 0 <= j < i ==> !occurs_at(s@, pat@, j),
        decreases last - i,
    {
        let window = slice_subrange(s, i, i + m);
        if same_chars(window, pat) {
            assert(occurs_at(s@, pat@, i as int));
            return true;
        }
        if i == last {
            return false;
        }
        i += 1;
    }
}

/// The index of the next `stop` character at or after `start`, or the length
/// of `s` where there is none.
pub fn find_char(s: &[char], start: usize, stop: char) -> (end: usize)
    requires
        start <= s@.len(),
    ensures
        end == start + run_len(s@, start as int, stop),
        start <= end <= s@.len(),
        end < s@.len() ==> s@[end as int] == stop,
{
    let n: usize = s.len();
    let mut i: usize = start;
    while i < n && s[i] != stop
        invariant
            start <= i <= n,
            n == s@.len(),
            i + run_len(s@, i as int, stop) == start + run_len(s@, start as int, stop),
        decreases n - i,
    {
        i += 1;
    }
    i
}

/// The characters of `s`, in order.
pub fn chars_of(s: &str) -> (v: Vec<char>)
    ensures
        v@ == s@,
{
    broadcast use vstd::string::next_postcondition, vstd::string::axiom_spec_iter;

    let mut it = s.chars();
    let mut v: Vec<char> = Vec::new();
    loop
        invariant
            it.obeys_prophetic_iter_laws(),
            it.decrease() is Some,
            v@ + it.remaining() == s@,
        ensures
            v@ == s@,
        decreases it.decrease()->0,
    {
        let ghost before = it.remaining();
        match it.next() {
            Some(c) => {
                assert(before =~= seq![c] + it.remaining());
                assert(v@.push(c) + it.remaining() =~= v@ + before);
                v.push(c);
            },
            None => {
                assert(v@ + before =~= v@);
                break ;
            },
        }
    }
    v
}

/// Appends one character with `String::push`: the string afterwards is the
/// string before with `c` at its end.
#[verifier::external_body]
fn push_char(s: &mut String, c: char)
    ensures
        final(s)@ == old(s)@.push(c),
{
    s.push(c)
}

/// The string that holds the characters of `chars`, in order.
pub fn string_of(chars: &[char]) -> (s: String)
    ensures
        s@ == chars@,
{
    let mut s = String::new();
    let n: usize = chars.len();
    let mut i: usize = 0;
    while i < n
        invariant
            i <= n,
            n == chars@.len(),
            s@ == chars@.subrange(0, i as int),
        decreases n - i,
    {
        push_char(&mut s, chars[i]);
        assert(chars@.subrange(0, i as int).push(chars@[i as int]) =~= chars@.subrange(
            0,
            i + 1,
        ));
        i += 1;
    }
    assert(chars@.subrange(0, n as int) =~= chars@);
    s
}

} // verus!
