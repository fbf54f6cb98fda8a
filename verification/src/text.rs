//! Small helpers for moving between strings and character vectors.
use vstd::prelude::*;
use vstd::string::*;

verus! {

/// Turns a vector of characters into the string made of exactly those
/// characters, in order.
///
/// Relies on `core::iter::Iterator::collect` with `String` as the collection:
/// collecting an iterator of `char`s yields the string of those characters in
/// iteration order.
#[verifier::external_body]
pub(crate) fn chars_to_string(v: &Vec<char>) -> (s: String)
    ensures
        s@ == v@,
{
    v.iter().collect()
}

/// The characters of a string slice, in order, as a vector.
pub(crate) fn chars_of(s: &str) -> (v: Vec<char>)
    ensures
        v@ == s@,
{
    let n = s.unicode_len();
    let mut v: Vec<char> = Vec::new();
    let mut i: usize = 0;
    while i < n
        invariant
            n == s@.len(),
            i <= n,
            v@ == s@.take(i as int),
        decreases n - i,
    {
        let c = s.get_char(i);
        v.push(c);
        proof {
            assert(s@.take(i + 1 as int) =~= s@.take(i as int).push(s@[i as int]));
        }
        i += 1;
    }
    proof {
        assert(v@ =~= s@);
    }
    v
}

/// The string holding the one character given.
pub(crate) fn single_char_string(c: char) -> (s: String)
    ensures
        s@ == seq![c],
{
    let mut v: Vec<char> = Vec::new();
    v.push(c);
    chars_to_string(&v)
}

/// The string holding the two characters given, in order.
pub(crate) fn two_char_string(a: char, b: char) -> (s: String)
    ensures
        s@ == seq![a, b],
{
    let mut v: Vec<char> = Vec::new();
    v.push(a);
    v.push(b);
    chars_to_string(&v)
}

/// Each character of the input as a one-character string, in order.
pub(crate) fn strings_of_chars(cs: &Vec<char>) -> (r: Vec<String>)
    ensures
        r@.len() == cs@.len(),
        forall|i: int| 0 <= i < cs@.len() ==> #[trigger] r@[i]@ == seq![cs@[i]],
{
    let mut r: Vec<String> = Vec::new();
    let mut i: usize = 0;
    while i < cs.len()
        invariant
            i <= cs@.len(),
            r@.len() == i,
            forall|j: int| 0 <= j < i ==> #[trigger] r@[j]@ == seq![cs@[j]],
        decreases cs@.len() - i,
    {
        r.push(single_char_string(cs[i]));
        i += 1;
    }
    r
}

} // verus!
