//! The decisions of a game of guessing a secret number from 1 to 100.

use rand::Rng;
use vstd::prelude::*;

verus! {

/// How a guess compares with the secret number.
#[derive(Clone, Copy, Debug, PartialEq, Eq, Structural)]
pub enum Verdict {
    TooSmall,
    TooBig,
    Win,
}

/// Judges `guess` against `secret`.
pub fn judge(guess: i64, secret: i64) -> (r: Verdict)
    ensures
        guess < secret ==> r == Verdict::TooSmall,
        guess > secret ==> r == Verdict::TooBig,
        guess == secret ==> r == Verdict::Win,
{
    if guess < secret {
        Verdict::TooSmall
    } else if guess > secret {
        Verdict::TooBig
    } else {
        Verdict::Win
    }
}

/// Relies on rand's `thread_rng` and `Rng::gen_range`: a number drawn from
/// `low..high`, which must not be empty.
#[verifier::external_body]
fn draw_in_range(low: i64, high: i64) -> (r: i64)
    requires
        low < high,
    ensures
        low <= r < high,
{
    rand::thread_rng().gen_range(low..high)
}

/// A secret number for a new game, drawn from 1 to 100.
pub fn new_secret() -> (r: i64)
    ensures
        1 <= r <= 100,
{
    draw_in_range(1, 101)
}

} // verus!
