//! Prefixes of strings and slices, up to a separator.

use vstd::prelude::*;

verus! {

/// The position of the first `sep` in `s`, or `s.len()` when there is none.
pub open spec fn first_index_of<T>(s: Seq<T>, sep: T) -> int
    decreases s.len(),
{
    if s.len() == 0 {
        0
    } else if s[0] == sep {
        0
    } else {
        1 + first_index_of(s.drop_first(), sep)
    }
}

/// The part of `s` before its first `sep` (all of `s` when there is none).
pub open spec fn before_first<T>(s: Seq<T>, sep: T) -> Seq<T> {
    s.take(first_index_of(s, sep))
}

/// `i` is where `sep` first occurs in `s`, or `s.len()` when it does not.
proof fn lemma_first_index<T>(s: Seq<T>, sep: T, i: int)
    requires
        0 <= i <= s.len(),
        forall|j: int| 0 <= j < i ==> s[j] != sep,
        i == s.len() || s[i] == sep,
    ensures
        first_index_of(s, sep) == i,
    decreases s.len(),
{
    if s.len() > 0 && i > 0 {
        lemma_first_index(s.drop_first(), sep, i - 1);
    }
}

/// The first word of `s`: everything before its first space.
pub fn first_word(s: &str) -> (r: &str)
    ensures
        r@ == before_first(s@, ' '),
{
    let n = s.unicode_len();
    let mut i: usize = 0;
    for c in it: s.chars()
        invariant
            it.seq() == s@,
            n == s@.len(),
            i == it.index(),
            forall|j: int| 0 <= j < i ==> s@[j] != ' ',
    {
        if c == ' ' {
            proof {
                lemma_first_index(s@, ' ', i as int);
            }
            return s.substring_char(0, i);
        }
        i = i + 1;
    }
    proof {
        lemma_first_index(s@, ' ', i as int);
    }
    s.substring_char(0, n)
}

/// The numbers of `arr` before its first zero.
pub fn first_number(arr: &[i32]) -> (r: &[i32])
    ensures
        r@ == before_first(arr@, 0i32),
{
    let n = arr.len();
    let mut i: usize = 0;
    while i < n
        invariant
            n == arr@.len(),
            0 <= i <= n,
            forall|j: int| 0 <= j < i ==> arr@[j] != 0i32,
        decreases n - i,
    {
        if arr[i] == 0 {
            proof {
                lemma_first_index(arr@, 0i32, i as int);
            }
            return &arr[0..i];
        }
        i = i + 1;
    }
    proof {
        lemma_first_index(arr@, 0i32, i as int);
        assert(arr@.take(n as int) =~= arr@);
    }
    &arr[0..n]
}

} // verus!
