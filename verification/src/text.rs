//! Small operations on strings, stated over their sequences of characters.

use vstd::prelude::*;
use vstd::string::*;

verus! {

/// The string made of the single character `c`.
///
/// Calls `char::to_string` of std; the contract claims that the result holds
/// exactly that one character.
#[verifier::external_body]
pub(crate) fn char_to_string(c: char) -> (s: String)
    ensures
        s@ == seq![c],
{
    c.to_string()
}

/// Whether std counts the character as white space.
pub uninterp spec fn is_whitespace(c: char) -> bool;

/// Whether the character is white space.
///
/// Calls `char::is_whitespace` of std; the contract gives its answer the
/// name [`is_whitespace`] and claims no more of it.
#[verifier::external_body]
pub(crate) fn char_is_whitespace(c: char) -> (r: bool)
    ensures
        r == is_whitespace(c),
{
    c.is_whitespace()
}

/// The characters of `s` that are no white space, in their order.
pub open spec fn spec_visible(s: Seq<char>) -> Seq<char> {
    s.filter(|c: char| !is_whitespace(c))
}

/// `s` without its white space.
pub fn visible(s: &str) -> (r: String)
    ensures
        r@ == spec_visible(s@),
{
    let ghost keep = |c: char| !is_whitespace(c);
    let n: usize = s.unicode_len();
    let mut r = String::new();
    let mut i: usize = 0;
    proof {
        reveal(Seq::filter);
        assert(s@.take(0) =~= Seq::<char>::empty());
    }
    while i < n
        invariant
            n == s@.len(),
            i <= n,
            keep == (|c: char| !is_whitespace(c)),
            r@ == s@.take(i as int).filter(keep),
        decreases n - i,
    {
        proof {
            reveal(Seq::filter);
            assert(s@.take(i + 1).drop_last() =~= s@.take(i as int));
            assert(s@.take(i + 1).last() == s@[i as int]);
        }
        let c: char = s.get_char(i);
        if !char_is_whitespace(c) {
            let one = char_to_string(c);
            r.append(one.as_str());
            assert(r@ =~= s@.take(i as int).filter(keep).push(c));
        }
        i = i + 1;
    }
    proof {
        assert(s@.take(s@.len() as int) =~= s@);
    }
    r
}

/// Whether `s` begins with `prefix`, character by character.
pub fn starts_with(s: &str, prefix: &str) -> (r: bool)
    ensures
        r == prefix@.is_prefix_of(s@),
{
    let n: usize = prefix.unicode_len();
    let m: usize = s.unicode_len();
    if n > m {
        return false;
    }
    let mut i: usize = 0;
    while i < n
        invariant
            n == prefix@.len(),
            m == s@.len(),
            n <= m,
            i <= n,
            forall|j: int| 0 <= j < i ==> prefix@[j] == s@[j],
        decreases n - i,
    {
        if prefix.get_char(i) != s.get_char(i) {
            assert(prefix@ != s@.subrange(0, prefix@.len() as int)) by {
                assert(s@.subrange(0, prefix@.len() as int)[i as int] == s@[i as int]);
            }
            return false;
        }
        i = i + 1;
    }
    assert(prefix@ =~= s@.subrange(0, prefix@.len() as int));
    true
}

/// `s` without its last character; `s` itself when it is empty.
pub open spec fn spec_pop(s: Seq<char>) -> Seq<char> {
    if s.len() == 0 {
        s
    } else {
        s.drop_last()
    }
}

/// Removes the last character of `s`, if there is one.
pub fn pop_last(s: &mut String)
    ensures
        final(s)@ == spec_pop(old(s)@),
{
    let n: usize = s.as_str().unicode_len();
    if n > 0 {
        let shorter: String = s.as_str().substring_char(0, n - 1).to_owned();
        *s = shorter;
    }
}

/// Whether two strings hold the same characters.
pub fn same_text(a: &str, b: &str) -> (r: bool)
    ensures
        r == (a@ == b@),
{
    let n: usize = a.unicode_len();
    if n != b.unicode_len() {
        return false;
    }
    let r = starts_with(a, b);
    proof {
        if r {
            assert(a@ =~= b@);
        }
    }
    r
}

} // verus!
