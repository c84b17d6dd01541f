//! Verified text helpers: decimal rendering, character sequences, searching.

use vstd::prelude::*;

verus! {

/// The character of a decimal digit.
pub open spec fn digit_char(d: nat) -> char {
    (48 + d) as char
}

/// Decimal rendering of a natural number, without sign or leading zeros.
pub open spec fn decimal(n: nat) -> Seq<char>
    decreases n,
{
    if n < 10 {
        seq![digit_char(n)]
    } else {
        decimal(n / 10).push(digit_char(n % 10))
    }
}

/// Appends a character to a `String`: `String::push`, which the std documentation
/// describes as appending the given char to the end of the string.
#[verifier::external_body]
pub(crate) fn push_char(s: &mut String, c: char)
    ensures
        final(s)@ == old(s)@.push(c),
{
    s.push(c);
}

/// Appends a string slice to a `String`.
pub fn push_str(s: &mut String, t: &str)
    ensures
        final(s)@ == old(s)@ + t@,
{
    s.append(t);
}

/// Appends the decimal rendering of `n`.
pub fn push_decimal(s: &mut String, n: u64)
    ensures
        final(s)@ == old(s)@ + decimal(n as nat),
    decreases n,
{
    if n >= 10 {
        push_decimal(s, n / 10);
    }
    let d: u8 = (n % 10) as u8;
    let c: char = (48u8 + d) as char;
    push_char(s, c);
    proof {
        if n >= 10 {
            assert(decimal(n as nat) == decimal((n / 10) as nat).push(digit_char((n % 10) as nat)));
        }
    }
    assert(s@ =~= old(s)@ + decimal(n as nat));
}

/// Decimal rendering of an integer, with a leading `-` when it is negative.
pub open spec fn signed_decimal(i: int) -> Seq<char> {
    if i < 0 {
        seq!['-'] + decimal((-i) as nat)
    } else {
        decimal(i as nat)
    }
}

/// Renders a `u64` in decimal.
pub fn u64_to_string(n: u64) -> (r: String)
    ensures
        r@ == decimal(n as nat),
{
    let mut s = String::new();
    push_decimal(&mut s, n);
    assert(s@ =~= decimal(n as nat));
    s
}

/// Appends the decimal rendering of a signed 16-bit value.
pub fn push_i16(s: &mut String, v: i16)
    ensures
        final(s)@ == old(s)@ + signed_decimal(v as int),
{
    if v < 0 {
        push_char(s, '-');
        let magnitude: u64 = (0i64 - v as i64) as u64;
        push_decimal(s, magnitude);
        assert(s@ =~= old(s)@ + signed_decimal(v as int));
    } else {
        push_decimal(s, v as u64);
    }
}

/// The characters of a string slice.
pub fn chars_of(s: &str) -> (r: Vec<char>)
    ensures
        r@ == s@,
{
    let mut out: Vec<char> = Vec::new();
    for c in it: s.chars()
        invariant
            out@ == it.seq().take(it.index() as int),
            it.seq() == s@,
    {
        out.push(c);
    }
    assert(out@ =~= s@);
    out
}

/// A `String` holding `v[lo..hi]`.
pub fn string_of(v: &Vec<char>, lo: usize, hi: usize) -> (r: String)
    requires
        lo <= hi <= v@.len(),
    ensures
        r@ == v@.subrange(lo as int, hi as int),
{
    let mut s = String::new();
    let mut i = lo;
    while i < hi
        invariant
            lo <= i <= hi <= v@.len(),
            s@ == v@.subrange(lo as int, i as int),
        decreases hi - i,
    {
        push_char(&mut s, v[i]);
        i = i + 1;
        assert(s@ =~= v@.subrange(lo as int, i as int));
    }
    s
}

/// `pat` occurs in `hay` at position `i`.
pub open spec fn occurs_at(hay: Seq<char>, pat: Seq<char>, i: int) -> bool {
    &&& 0 <= i
    &&& i + pat.len() <= hay.len()
    &&& hay.subrange(i, i + pat.len()) == pat
}

/// The first position at or after `i` where `pat` occurs in `hay`.
pub open spec fn find_from(hay: Seq<char>, pat: Seq<char>, i: int) -> Option<int>
    decreases hay.len() + 1 - i,
{
    if i < 0 || i + pat.len() > hay.len() {
        None
    } else if occurs_at(hay, pat, i) {
        Some(i)
    } else {
        find_from(hay, pat, i + 1)
    }
}

/// The first position where `pat` occurs in `hay` (what `str::find` answers, counted in characters).
pub open spec fn find_first(hay: Seq<char>, pat: Seq<char>) -> Option<int> {
    find_from(hay, pat, 0)
}

/// Whether `pat` occurs in `hay` at `start + i`.
fn matches_here(hay: &Vec<char>, start: usize, i: usize, pat: &Vec<char>) -> (r: bool)
    requires
        start <= hay@.len(),
        i + pat@.len() <= hay@.len() - start,
    ensures
        r == occurs_at(hay@.skip(start as int), pat@, i as int),
{
    let ghost rest = hay@.skip(start as int);
    let n = hay.len();
    assert(start + i <= n);
    let base: usize = start + i;
    let mut k: usize = 0;
    while k < pat.len()
        invariant
            start <= hay@.len(),
            base == start + i,
            base + pat@.len() <= hay@.len(),
            n == hay@.len(),
            rest == hay@.skip(start as int),
            k <= pat@.len(),
            forall|j: int| 0 <= j < k ==> rest[i + j] == pat@[j],
        decreases pat@.len() - k,
    {
        if hay[base + k] != pat[k] {
            assert(rest.subrange(i as int, i + pat@.len())[k as int] != pat@[k as int]);
            return false;
        }
        k = k + 1;
    }
    assert(rest.subrange(i as int, i + pat@.len()) =~= pat@);
    true
}

/// The first position, counted from `start`, where `pat` occurs in `hay[start..]`.
pub fn find_in(hay: &Vec<char>, start: usize, pat: &Vec<char>) -> (r: Option<usize>)
    requires
        start <= hay@.len(),
    ensures
        r matches Some(i) ==> find_first(hay@.skip(start as int), pat@) == Some(i as int) && i
            + pat@.len() <= hay@.len() - start,
        r is None ==> find_first(hay@.skip(start as int), pat@) is None,
{
    let ghost rest = hay@.skip(start as int);
    let len = hay.len() - start;
    if pat.len() > len {
        return None;
    }
    let last: usize = len - pat.len();
    let mut i: usize = 0;
    loop
        invariant
            start <= hay@.len(),
            len == hay@.len() - start,
            rest == hay@.skip(start as int),
            rest.len() == len,
            last == len - pat@.len(),
            i <= last,
            find_first(rest, pat@) == find_from(rest, pat@, i as int),
        decreases last - i,
    {
        if matches_here(hay, start, i, pat) {
            return Some(i);
        }
        if i == last {
            assert(find_from(rest, pat@, (i + 1) as int) is None);
            return None;
        }
        i = i + 1;
    }
}

/// Whether two string slices hold the same characters.
pub fn str_eq(a: &str, b: &str) -> (r: bool)
    ensures
        r == (a@ == b@),
{
    let va = chars_of(a);
    let vb = chars_of(b);
    if va.len() != vb.len() {
        return false;
    }
    let mut i: usize = 0;
    while i < va.len()
        invariant
            va@ == a@,
            vb@ == b@,
            va@.len() == vb@.len(),
            i <= va@.len(),
            forall|j: int| 0 <= j < i ==> va@[j] == vb@[j],
        decreases va@.len() - i,
    {
        if va[i] != vb[i] {
            return false;
        }
        i = i + 1;
    }
    assert(va@ =~= vb@);
    true
}

/// The text before the first `sep`, or all of `s` when `sep` does not occur.
pub open spec fn first_field(s: Seq<char>, sep: char) -> Seq<char> {
    match find_first(s, seq![sep]) {
        Some(i) => s.take(i),
        None => s,
    }
}

/// The text after the first `sep` (empty when `sep` does not occur).
pub open spec fn after_first(s: Seq<char>, sep: char) -> Seq<char> {
    match find_first(s, seq![sep]) {
        Some(i) => s.skip(i + 1),
        None => seq![],
    }
}

/// `find_first` finds a position where the pattern really occurs, and none before it.
pub proof fn lemma_find_from_sound(hay: Seq<char>, pat: Seq<char>, i: int)
    ensures
        find_from(hay, pat, i) matches Some(k) ==> i <= k && occurs_at(hay, pat, k) && forall|
            j: int,
        | i <= j < k ==> !occurs_at(hay, pat, j),
        find_from(hay, pat, i) is None && 0 <= i ==> forall|j: int|
            i <= j ==> !occurs_at(hay, pat, j),
    decreases hay.len() + 1 - i,
{
    if i < 0 || i + pat.len() > hay.len() {
    } else if occurs_at(hay, pat, i) {
    } else {
        lemma_find_from_sound(hay, pat, i + 1);
    }
}

/// Splits `v[start..]` at its first `sep`: the end of the first field, counted from the
/// start of `v`, and whether a separator ended it.
pub fn split_at_char(v: &Vec<char>, start: usize, sep: char) -> (r: (usize, bool))
    requires
        start <= v@.len(),
    ensures
        start <= r.0 <= v@.len(),
        v@.subrange(start as int, r.0 as int) == first_field(v@.skip(start as int), sep),
        r.1 == (find_first(v@.skip(start as int), seq![sep]) is Some),
        r.1 ==> r.0 < v@.len() && v@.skip((r.0 + 1) as int) == after_first(
            v@.skip(start as int),
            sep,
        ),
{
    let n = v.len();
    let pat = vec![sep];
    let found = find_in(v, start, &pat);
    assert(pat@ =~= seq![sep]);
    let ghost rest = v@.skip(start as int);
    match found {
        Some(i) => {
            proof {
                lemma_find_from_sound(rest, seq![sep], 0);
            }
            assert(v@.subrange(start as int, (start + i) as int) =~= rest.take(i as int));
            assert(v@.skip((start + i + 1) as int) =~= rest.skip(i + 1));
            (start + i, true)
        },
        None => {
            assert(v@.subrange(start as int, v@.len() as int) =~= rest);
            (v.len(), false)
        },
    }
}

} // verus!
