//! Counting how often each word occurs in a text.

use vstd::prelude::*;

verus! {

/// The words of a text: its maximal runs of non-whitespace characters, in
/// order.
pub uninterp spec fn words_of(s: Seq<char>) -> Seq<Seq<char>>;

/// Relies on `str::split_whitespace`: the words of `text`, in order.
#[verifier::external_body]
fn split_words(text: &str) -> (r: Vec<&str>)
    ensures
        r@.len() == words_of(text@).len(),
        forall|i: int| 0 <= i < r@.len() ==> (#[trigger] r@[i])@ == words_of(text@)[i],
{
    text.split_whitespace().collect()
}

/// The text of each word.
pub open spec fn texts(ws: Seq<&str>) -> Seq<Seq<char>> {
    ws.map_values(|w: &str| w@)
}

/// How many times `w` occurs in `ws`.
pub open spec fn occurrences(ws: Seq<Seq<char>>, w: Seq<char>) -> nat
    decreases ws.len(),
{
    if ws.len() == 0 {
        0
    } else {
        occurrences(ws.drop_last(), w) + if ws.last() == w {
            1nat
        } else {
            0nat
        }
    }
}

/// The distinct words of `ws`, in the order of their first occurrence.
pub open spec fn first_seen(ws: Seq<Seq<char>>) -> Seq<Seq<char>>
    decreases ws.len(),
{
    if ws.len() == 0 {
        Seq::empty()
    } else {
        let seen = first_seen(ws.drop_last());
        if seen.contains(ws.last()) {
            seen
        } else {
            seen.push(ws.last())
        }
    }
}

/// The words of `ws` with their counts, in the order of first occurrence.
pub open spec fn counted(ws: Seq<Seq<char>>) -> Seq<(Seq<char>, nat)> {
    first_seen(ws).map_values(|w: Seq<char>| (w, occurrences(ws, w)))
}

/// A word is among the first-seen words exactly when it occurs; one that
/// does not occur counts zero, and none counts more than there are words.
proof fn lemma_first_seen(ws: Seq<Seq<char>>, w: Seq<char>)
    ensures
        first_seen(ws).contains(w) <==> ws.contains(w),
        !ws.contains(w) ==> occurrences(ws, w) == 0,
        occurrences(ws, w) <= ws.len(),
    decreases ws.len(),
{
    if ws.len() > 0 {
        let init = ws.drop_last();
        lemma_first_seen(init, w);
        if init.contains(w) {
            let k = choose|k: int| 0 <= k < init.len() && init[k] == w;
            assert(ws[k] == w);
        }
        if ws.contains(w) && ws.last() != w {
            let k = choose|k: int| 0 <= k < ws.len() && ws[k] == w;
            assert(init[k] == w);
        }
        if first_seen(ws).contains(w) && !first_seen(init).contains(w) {
            assert(first_seen(ws) == first_seen(init).push(ws.last()));
            let k = choose|k: int| 0 <= k < first_seen(ws).len() && first_seen(ws)[k] == w;
            assert(k == first_seen(init).len());
        }
        if ws.last() == w {
            assert(ws[ws.len() - 1] == w);
        }
        if first_seen(init).contains(w) {
            let k = choose|k: int| 0 <= k < first_seen(init).len() && first_seen(init)[k] == w;
            if !first_seen(init).contains(ws.last()) {
                assert(first_seen(ws)[k] == w);
            }
        }
        if ws.last() == w && !first_seen(init).contains(w) {
            assert(first_seen(ws).last() == w);
        }
    }
}

/// Each distinct word of `words` with the number of times it occurs, in the
/// order in which the words first occur.
pub fn count_words(words: &[&str]) -> (r: Vec<(String, u64)>)
    ensures
        r@.len() == counted(texts(words@)).len(),
        forall|k: int|
            0 <= k < r@.len() ==> (#[trigger] r@[k]).0@ == counted(texts(words@))[k].0 && r@[k].1
                == counted(texts(words@))[k].1,
{
    let ghost ws = texts(words@);
    let mut keys: Vec<String> = Vec::new();
    let mut counts: Vec<u64> = Vec::new();
    let mut i: usize = 0;
    while i < words.len()
        invariant
            i <= words@.len(),
            ws == texts(words@),
            keys@.len() == counts@.len(),
            keys@.len() == first_seen(ws.take(i as int)).len(),
            forall|k: int|
                0 <= k < keys@.len() ==> (#[trigger] keys@[k])@ == first_seen(ws.take(i as int))[k],
            forall|a: int, b: int|
                0 <= a < keys@.len() && 0 <= b < keys@.len() && a != b ==> (#[trigger] keys@[a])@
                    != (#[trigger] keys@[b])@,
            forall|k: int|
                0 <= k < keys@.len() ==> #[trigger] counts@[k] == occurrences(
                    ws.take(i as int),
                    keys@[k]@,
                ),
        decreases words@.len() - i,
    {
        let word = String::from_str(words[i]);
        let ghost before = ws.take(i as int);
        let ghost after = ws.take(i + 1);
        assert(after.drop_last() =~= before);
        assert(after.last() == word@);
        let mut j: usize = 0;
        let mut found = false;
        while j < keys.len() && !found
            invariant
                keys@.len() == counts@.len(),
                j <= keys@.len(),
                forall|k: int| 0 <= k < j ==> (#[trigger] keys@[k])@ != word@,
                found ==> j < keys@.len() && keys@[j as int]@ == word@,
            decreases keys@.len() - j + if found { 0int } else { 1int },
        {
            if keys[j] == word {
                found = true;
            } else {
                j = j + 1;
            }
        }
        proof {
            lemma_first_seen(before, word@);
            assert forall|k: int| 0 <= k < keys@.len() implies occurrences(after, #[trigger] keys@[k]@)
                == occurrences(before, keys@[k]@) + if keys@[k]@ == word@ {
                1nat
            } else {
                0nat
            } by {}
        }
        if found {
            proof {
                assert(first_seen(before)[j as int] == word@);
                assert(first_seen(before).contains(word@));
                assert(first_seen(after) == first_seen(before));
            }
            let c = counts[j];
            counts.set(j, c + 1);
        } else {
            proof {
                assert(!first_seen(before).contains(word@)) by {
                    if first_seen(before).contains(word@) {
                        let k = choose|k: int|
                            0 <= k < first_seen(before).len() && first_seen(before)[k] == word@;
                        assert(keys@[k]@ == word@);
                    }
                }
                assert(first_seen(after) == first_seen(before).push(word@));
            }
            keys.push(word);
            counts.push(1);
        }
        i = i + 1;
    }
    assert(ws.take(words@.len() as int) =~= ws);
    let mut r: Vec<(String, u64)> = Vec::new();
    let mut k: usize = 0;
    while k < keys.len()
        invariant
            keys@.len() == counts@.len(),
            k <= keys@.len(),
            r@.len() == k,
            keys@.len() == first_seen(ws).len(),
            forall|m: int| 0 <= m < keys@.len() ==> (#[trigger] keys@[m])@ == first_seen(ws)[m],
            forall|m: int|
                0 <= m < keys@.len() ==> #[trigger] counts@[m] == occurrences(ws, keys@[m]@),
            forall|m: int|
                0 <= m < k ==> (#[trigger] r@[m]).0@ == keys@[m]@ && r@[m].1 == counts@[m],
        decreases keys@.len() - k,
    {
        r.push((keys[k].clone(), counts[k]));
        k = k + 1;
    }
    r
}

/// Each distinct word of `text` with the number of times it occurs, in
/// the order in which the words first occur.
pub fn word_counts(text: &str) -> (r: Vec<(String, u64)>)
    ensures
        r@.len() == counted(words_of(text@)).len(),
        forall|k: int|
            0 <= k < r@.len() ==> (#[trigger] r@[k]).0@ == counted(words_of(text@))[k].0 && r@[k].1
                == counted(words_of(text@))[k].1,
{
    let words = split_words(text);
    assert(texts(words@) =~= words_of(text@));
    count_words(words.as_slice())
}

} // verus!
