//! Character-level questions about string slices.

use vstd::prelude::*;
use vstd::std_specs::iter::IteratorSpec;

verus! {

/// The position of the first occurrence of `c` in `s`, or the length of `s`
/// where `c` does not occur.
pub open spec fn first_index_of(s: Seq<char>, c: char) -> int
    decreases s.len(),
{
    if s.len() == 0 || s[0] == c {
        0
    } else {
        1 + first_index_of(s.drop_first(), c)
    }
}

/// `first_index_of` lies within the sequence, nothing before it is `c`, and
/// where it is not the length the character there is `c`.
pub proof fn lemma_first_index_of(s: Seq<char>, c: char)
    ensures
        0 <= first_index_of(s, c) <= s.len(),
        forall|i: int| 0 <= i < first_index_of(s, c) ==> s[i] != c,
        first_index_of(s, c) < s.len() ==> s[first_index_of(s, c)] == c,
        first_index_of(s, c) == s.len() <==> !s.contains(c),
    decreases s.len(),
{
    if s.len() == 0 || s[0] == c {
    } else {
        let rest = s.drop_first();
        lemma_first_index_of(rest, c);
        assert forall|i: int| 0 <= i < first_index_of(s, c) implies s[i] != c by {
            if i > 0 {
                assert(s[i] == rest[i - 1]);
            }
        }
        assert(first_index_of(s, c) < s.len() ==> s[first_index_of(s, c)] == rest[first_index_of(
            rest,
            c,
        )]);
        if rest.contains(c) {
            let j = choose|j: int| 0 <= j < rest.len() && rest[j] == c;
            assert(s[j + 1] == c);
        }
        if s.contains(c) {
            let j = choose|j: int| 0 <= j < s.len() && s[j] == c;
            assert(rest[j - 1] == c);
        }
    }
}

/// Whichever position satisfies the three defining facts is `first_index_of`.
pub proof fn lemma_first_index_of_unique(s: Seq<char>, c: char, k: int)
    requires
        0 <= k <= s.len(),
        forall|i: int| 0 <= i < k ==> s[i] != c,
        k < s.len() ==> s[k] == c,
    ensures
        first_index_of(s, c) == k,
{
    lemma_first_index_of(s, c);
    let f = first_index_of(s, c);
    if f < k {
        assert(s[f] == c);
    } else if k < f {
        assert(s[k] == c);
    }
}

/// Counts the characters of `s` before the first `c`.
pub fn index_of_char(s: &str, c: char) -> (index: usize)
    ensures
        index == first_index_of(s@, c),
{
    broadcast use vstd::string::group_string_axioms;

    let n: usize = s.unicode_len();
    let mut rest = s.chars();
    let mut i: usize = 0;
    loop
        invariant_except_break
            rest.remaining() == s@.skip(i as int),
        invariant
            n == s@.len(),
            i <= n,
            forall|j: int| 0 <= j < i ==> s@[j] != c,
        ensures
            i <= n,
            forall|j: int| 0 <= j < i ==> s@[j] != c,
            i < n ==> s@[i as int] == c,
        decreases n - i,
    {
        let ghost before = rest.remaining();
        match rest.next() {
            Some(ch) => {
                assert(before.len() > 0);
                assert(ch == s@[i as int]);
                if ch == c {
                    break ;
                }
                assert(before.drop_first() =~= s@.skip(i + 1));
                i += 1;
            },
            None => {
                assert(before.len() == 0);
                break ;
            },
        }
    }
    proof {
        lemma_first_index_of_unique(s@, c, i as int);
    }
    i
}

/// Whether `c` occurs in `s`.
pub fn contains_char(s: &str, c: char) -> (found: bool)
    ensures
        found == s@.contains(c),
{
    let n: usize = s.unicode_len();
    let index: usize = index_of_char(s, c);
    proof {
        lemma_first_index_of(s@, c);
    }
    index < n
}

/// Whether `s` is not empty and its last character is `c`.
pub fn ends_with_char(s: &str, c: char) -> (ends: bool)
    ensures
        ends == (s@.len() > 0 && s@.last() == c),
{
    let n: usize = s.unicode_len();
    n > 0 && s.get_char(n - 1) == c
}

} // verus!
