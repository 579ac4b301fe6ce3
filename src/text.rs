//! Comparing texts character by character.
use vstd::prelude::*;
use vstd::string::*;

verus! {

/// Whether `name` is `prefix` followed by anything.
pub open spec fn has_prefix(name: Seq<char>, prefix: Seq<char>) -> bool {
    prefix.len() <= name.len() && name.subrange(0, prefix.len() as int) == prefix
}

pub fn starts_with(name: &str, prefix: &str) -> (r: bool)
    ensures
        r == has_prefix(name@, prefix@),
{
    let n = name.unicode_len();
    let p = prefix.unicode_len();
    if p > n {
        return false;
    }
    let mut i: usize = 0;
    while i < p
        invariant
            p == prefix@.len(),
            n == name@.len(),
            p <= n,
            i <= p,
            forall|j: int| 0 <= j < i ==> name@[j] == prefix@[j],
        decreases p - i,
    {
        if name.get_char(i) != prefix.get_char(i) {
            assert(name@.subrange(0, p as int)[i as int] != prefix@[i as int]);
            return false;
        }
        i += 1;
    }
    assert(name@.subrange(0, p as int) =~= prefix@);
    true
}

/// Whether `text` is exactly `expected`.
pub fn text_is(text: &str, expected: &str) -> (r: bool)
    ensures
        r == (text@ == expected@),
{
    let same_start = starts_with(text, expected);
    let r = same_start && text.unicode_len() == expected.unicode_len();
    proof {
        if r {
            assert(text@ =~= text@.subrange(0, expected@.len() as int));
        }
        if text@ == expected@ {
            assert(text@.subrange(0, expected@.len() as int) =~= expected@);
        }
    }
    r
}

} // verus!
