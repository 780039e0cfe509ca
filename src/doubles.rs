//! Counting the positions where a character equals the one that follows it.
use vstd::prelude::*;
use vstd::std_specs::iter::IteratorSpec;

verus! {

/// The number of indices `i` with `s[i] == s[i + 1]`, counted over the
/// characters (Unicode scalar values) of `s`.
pub open spec fn adjacent_repeats(s: Seq<char>) -> nat
    decreases s.len(),
{
    if s.len() < 2 {
        0
    } else {
        adjacent_repeats(s.drop_last()) + if s[s.len() - 2] == s[s.len() - 1] {
            1nat
        } else {
            0nat
        }
    }
}

/// Counts, left to right, each character that equals the character right
/// after it: `"aabbcc"` gives 3, while `""` and `"abc"` give 0.
pub fn count_doubles(val: &str) -> (r: u64)
    requires
        val@.len() <= u64::MAX,
    ensures
        r == adjacent_repeats(val@),
{
    broadcast use vstd::string::axiom_spec_iter;

    let mut it = val.chars();
    let ghost mut i: int = 0;
    let mut prev: Option<char> = None;
    let mut total: u64 = 0;
    loop
        invariant
            it.obeys_prophetic_iter_laws(),
            0 <= i <= val@.len(),
            it.remaining() == val@.skip(i),
            total == adjacent_repeats(val@.take(i)),
            total <= i,
            prev == (if i == 0 { None } else { Some(val@[i - 1]) }),
            val@.len() <= u64::MAX,
        ensures
            total == adjacent_repeats(val@),
        decreases val@.len() - i,
    {
        let next = it.next();
        match next {
            None => {
                assert(val@.take(i) =~= val@);
                break;
            },
            Some(c) => {
                proof {
                    assert(val@.take(i + 1).drop_last() =~= val@.take(i));
                }
                if prev == Some(c) {
                    total = total + 1;
                }
                prev = Some(c);
                proof {
                    i = i + 1;
                }
            },
        }
    }
    total
}

} // verus!
