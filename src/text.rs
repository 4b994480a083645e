use vstd::prelude::*;

verus! {

/// `s` without its trailing run of `c`.
pub open spec fn strip_end(s: Seq<char>, c: char) -> Seq<char>
    decreases s.len(),
{
    if s.len() > 0 && s.last() == c {
        strip_end(s.drop_last(), c)
    } else {
        s
    }
}

/// A fixed-point rendering with its trailing zeros, and then any decimal point
/// left at its end, removed.
pub open spec fn trimmed_decimal(s: Seq<char>) -> Seq<char> {
    strip_end(strip_end(s, '0'), '.')
}

/// The length of `s` without its trailing run of `c`.
fn stripped_len(s: &str, c: char) -> (n: usize)
    ensures
        s@.subrange(0, n as int) == strip_end(s@, c),
        n <= s@.len(),
{
    let mut n: usize = s.unicode_len();
    assert(s@.subrange(0, n as int) == s@);
    while n > 0 && s.get_char(n - 1) == c
        invariant
            n <= s@.len(),
            strip_end(s@, c) == strip_end(s@.subrange(0, n as int), c),
        decreases n,
    {
        assert(s@.subrange(0, n as int).drop_last() == s@.subrange(0, n - 1));
        n = n - 1;
    }
    assert(s@.subrange(0, n as int) == strip_end(s@.subrange(0, n as int), c));
    n
}

/// Removes the trailing zeros of a number rendered with a fixed count of
/// decimals, then a decimal point left at the end: `"2.50000000"` becomes
/// `"2.5"` and `"3.00000000"` becomes `"3"`.
pub fn trim_decimal(s: &str) -> (r: String)
    ensures
        r@ == trimmed_decimal(s@),
{
    let n = stripped_len(s, '0');
    let t = s.substring_char(0, n);
    let m = stripped_len(t, '.');
    String::from_str(t.substring_char(0, m))
}

/// Whether `s` is the single character `c`.
pub fn is_single(s: &str, c: char) -> (r: bool)
    ensures
        r == (s@ == seq![c]),
{
    if s.unicode_len() == 1 {
        let r = s.get_char(0) == c;
        assert(r ==> s@ == seq![c]);
        r
    } else {
        false
    }
}

/// Whether `c` occurs in `s`.
pub fn has_char(s: &str, c: char) -> (r: bool)
    ensures
        r == s@.contains(c),
{
    let n = s.unicode_len();
    let mut i: usize = 0;
    while i < n
        invariant
            n == s@.len(),
            i <= n,
            forall|j: int| 0 <= j < i ==> s@[j] != c,
        decreases n - i,
    {
        if s.get_char(i) == c {
            return true;
        }
        i = i + 1;
    }
    false
}

/// Whether `s` ends with `c`.
pub fn ends_with_char(s: &str, c: char) -> (r: bool)
    ensures
        r == (s@.len() > 0 && s@.last() == c),
{
    let n = s.unicode_len();
    n > 0 && s.get_char(n - 1) == c
}

/// `s` without its last character.
pub fn without_last(s: &str) -> (r: String)
    requires
        s@.len() > 0,
    ensures
        r@ == s@.drop_last(),
{
    let n = s.unicode_len();
    String::from_str(s.substring_char(0, n - 1))
}

} // verus!
