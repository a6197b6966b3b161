//! One round of a number-guessing game: drawing the secret, reading a
//! guess from a line of input, and judging it.

use vstd::prelude::*;
use rand::Rng;

verus! {

/// The smallest secret the game draws.
pub const LOWEST: u32 = 1;

/// The largest secret the game draws.
pub const HIGHEST: u32 = 100;

/// Relies on rand's `thread_rng` and `Rng::gen_range` on `low..high`: a
/// value at least `low` and below `high` (the range must not be empty).
#[verifier::external_body]
fn random_below(low: u32, high: u32) -> (r: u32)
    requires
        low < high,
    ensures
        low <= r < high,
{
    rand::thread_rng().gen_range(low..high)
}

/// A fresh secret number, from `LOWEST` to `HIGHEST` inclusive.
pub fn secret_number() -> (r: u32)
    ensures
        LOWEST <= r <= HIGHEST,
{
    random_below(LOWEST, HIGHEST + 1)
}

/// The text left when leading and trailing whitespace is removed.
pub uninterp spec fn trim_of(s: Seq<char>) -> Seq<char>;

/// Relies on `str::trim`: the text without its leading and trailing
/// whitespace.
#[verifier::external_body]
fn trim(s: &str) -> (r: &str)
    ensures
        r@ == trim_of(s@),
{
    s.trim()
}

/// An ASCII decimal digit.
pub open spec fn is_digit(c: char) -> bool {
    '0' <= c <= '9'
}

/// The value of an ASCII decimal digit.
pub open spec fn digit_value(c: char) -> nat {
    ((c as u32) - ('0' as u32)) as nat
}

/// The number that a run of decimal digits writes, most significant first.
pub open spec fn digits_value(s: Seq<char>) -> nat
    decreases s.len(),
{
    if s.len() == 0 {
        0
    } else {
        digits_value(s.drop_last()) * 10 + digit_value(s.last())
    }
}

/// The digits of an unsigned number: the text after an optional `+`.
pub open spec fn unsigned_digits(s: Seq<char>) -> Seq<char> {
    if s.len() > 0 && s[0] == '+' {
        s.drop_first()
    } else {
        s
    }
}

/// The `u32` that `s` writes in decimal: an optional `+`, then one digit
/// or more, with a value that fits; `None` for any other text.
pub open spec fn u32_of(s: Seq<char>) -> Option<u32> {
    let d = unsigned_digits(s);
    if d.len() > 0 && (forall|i: int| 0 <= i < d.len() ==> is_digit(#[trigger] d[i]))
        && digits_value(d) <= u32::MAX {
        Some(digits_value(d) as u32)
    } else {
        None
    }
}

/// Appending digits never makes the value of a run of digits smaller.
proof fn lemma_digits_value_grows(d: Seq<char>, k: int)
    requires
        0 <= k <= d.len(),
    ensures
        digits_value(d.take(k)) <= digits_value(d),
    decreases d.len(),
{
    if k < d.len() {
        lemma_digits_value_grows(d.drop_last(), k);
        assert(d.drop_last().take(k) =~= d.take(k));
    } else {
        assert(d.take(k) =~= d);
    }
}

/// The `u32` written in decimal by `s`, or `None` when `s` is not such a
/// number (also when it is too large).
pub fn parse_u32(s: &str) -> (r: Option<u32>)
    ensures
        r == u32_of(s@),
{
    let n = s.unicode_len();
    let mut start: usize = 0;
    if n > 0 && s.get_char(0) == '+' {
        start = 1;
    }
    let ghost d = unsigned_digits(s@);
    assert(d =~= s@.subrange(start as int, n as int));
    if start == n {
        return None;
    }
    let mut value: u64 = 0;
    let mut i: usize = 0;
    for c in it: s.chars()
        invariant
            it.seq() == s@,
            i == it.index(),
            n == s@.len(),
            start <= 1,
            start < n,
            d == s@.subrange(start as int, n as int),
            d == unsigned_digits(s@),
            i >= start ==> forall|j: int| 0 <= j < i - start ==> is_digit(#[trigger] d[j]),
            i >= start ==> value == digits_value(d.take(i - start)),
            i < start ==> value == 0,
            value <= u32::MAX,
    {
        if i >= start {
            if c < '0' || c > '9' {
                assert(!is_digit(d[i - start]));
                return None;
            }
            assert(d.take(i + 1 - start).drop_last() =~= d.take(i - start));
            assert(d.take(i + 1 - start).last() == c);
            value = value * 10 + (c as u64 - '0' as u64);
            if value > u32::MAX as u64 {
                proof {
                    lemma_digits_value_grows(d, i + 1 - start);
                }
                return None;
            }
        } else {
            assert(d.take(0) =~= Seq::<char>::empty());
        }
        i = i + 1;
    }
    assert(d.take(n - start) =~= d);
    Some(value as u32)
}

/// The guess written on a line of input, surrounding whitespace ignored.
pub fn read_guess(line: &str) -> (r: Option<u32>)
    ensures
        r == u32_of(trim_of(line@)),
{
    parse_u32(trim(line))
}

/// How a guess compares with the secret.
#[derive(Clone, Copy, Debug, PartialEq, Eq, Structural)]
pub enum Verdict {
    TooSmall,
    TooBig,
    Win,
}

/// The verdict on `guess` against `secret`.
pub open spec fn verdict_of(guess: u32, secret: u32) -> Verdict {
    if guess < secret {
        Verdict::TooSmall
    } else if guess > secret {
        Verdict::TooBig
    } else {
        Verdict::Win
    }
}

/// Judges a guess: too small, too big, or right.
pub fn judge(guess: u32, secret: u32) -> (r: Verdict)
    ensures
        r == verdict_of(guess, secret),
{
    if guess < secret {
        Verdict::TooSmall
    } else if guess > secret {
        Verdict::TooBig
    } else {
        Verdict::Win
    }
}

/// The message the game prints for a verdict.
pub open spec fn verdict_text(v: Verdict) -> Seq<char> {
    match v {
        Verdict::TooSmall => "Too small!"@,
        Verdict::TooBig => "Too big!"@,
        Verdict::Win => "You win!"@,
    }
}

impl Verdict {
    /// The message for this verdict.
    pub fn message(&self) -> (r: &'static str)
        ensures
            r@ == verdict_text(*self),
    {
        match self {
            Verdict::TooSmall => "Too small!",
            Verdict::TooBig => "Too big!",
            Verdict::Win => "You win!",
        }
    }

    /// Whether the round is over.
    pub fn ends_round(&self) -> (r: bool)
        ensures
            r == (*self == Verdict::Win),
    {
        match self {
            Verdict::Win => true,
            _ => false,
        }
    }
}

/// The game's answer to one line of input against `secret`: `None` when
/// the line holds no number (the player is asked again), else the guess
/// and its verdict.
pub fn play_line(secret: u32, line: &str) -> (r: Option<(u32, Verdict)>)
    ensures
        r == (match u32_of(trim_of(line@)) {
            Some(g) => Some((g, verdict_of(g, secret))),
            None => None,
        }),
{
    match read_guess(line) {
        Some(g) => Some((g, judge(g, secret))),
        None => None,
    }
}

} // verus!
