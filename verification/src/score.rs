//! What a score is: the two peg counts as mathematical functions of the
//! secret and the guess, and the facts that hold of them.
//!
//! Both counts are defined on colour sequences of any common length, by
//! counting positions. The exact matches are the positions where the two
//! sides agree. The other positions leave pegs over on each side; a
//! colour-only match pairs a left-over peg of the guess with a left-over peg
//! of the secret of the same colour, each peg in at most one pair, so the
//! pegs of one colour give as many pairs as the scarcer side has left over.

use vstd::prelude::*;
use crate::color::Color;

verus! {

/// The number of positions below `n` at which secret and guess agree.
pub open spec fn exact_upto(secret: Seq<Color>, guess: Seq<Color>, n: nat) -> nat
    decreases n,
{
    if n == 0 {
        0
    } else {
        let rest = exact_upto(secret, guess, (n - 1) as nat);
        if secret[n - 1] == guess[n - 1] {
            rest + 1
        } else {
            rest
        }
    }
}

/// The number of positions below `n` at which `side` shows `color` and
/// `other` shows something else: the pegs of that colour that no exact match
/// uses up.
pub open spec fn spare_upto(side: Seq<Color>, other: Seq<Color>, color: Color, n: nat) -> nat
    decreases n,
{
    if n == 0 {
        0
    } else {
        let rest = spare_upto(side, other, color, (n - 1) as nat);
        if side[n - 1] == color && other[n - 1] != color {
            rest + 1
        } else {
            rest
        }
    }
}

/// The pegs of `color` on `side` that no exact match uses up.
pub open spec fn spare(side: Seq<Color>, other: Seq<Color>, color: Color) -> nat {
    spare_upto(side, other, color, side.len())
}

/// The smaller of two counts.
pub open spec fn fewer(a: nat, b: nat) -> nat {
    if a <= b {
        a
    } else {
        b
    }
}

/// The colour-only matches that one colour contributes: as many as the side
/// with fewer spare pegs of it has.
pub open spec fn color_matches_of(secret: Seq<Color>, guess: Seq<Color>, color: Color) -> nat {
    fewer(spare(secret, guess, color), spare(guess, secret, color))
}

/// Black pegs: the positions where the guess has the secret's colour.
pub open spec fn exact_matches(secret: Seq<Color>, guess: Seq<Color>) -> nat {
    exact_upto(secret, guess, secret.len())
}

/// White pegs: the colour-only matches, summed over the palette.
pub open spec fn color_matches(secret: Seq<Color>, guess: Seq<Color>) -> nat {
    color_matches_of(secret, guess, Color::Red)
        + color_matches_of(secret, guess, Color::Blue)
        + color_matches_of(secret, guess, Color::Green)
        + color_matches_of(secret, guess, Color::Yellow)
        + color_matches_of(secret, guess, Color::Purple)
        + color_matches_of(secret, guess, Color::Orange)
}

/// The spare pegs of one side, all colours together.
pub open spec fn spare_total_upto(side: Seq<Color>, other: Seq<Color>, n: nat) -> nat {
    spare_upto(side, other, Color::Red, n)
        + spare_upto(side, other, Color::Blue, n)
        + spare_upto(side, other, Color::Green, n)
        + spare_upto(side, other, Color::Yellow, n)
        + spare_upto(side, other, Color::Purple, n)
        + spare_upto(side, other, Color::Orange, n)
}

/// Every position below `n` is either an exact match or holds one spare peg.
pub proof fn lemma_positions_split(side: Seq<Color>, other: Seq<Color>, n: nat)
    ensures
        exact_upto(side, other, n) + spare_total_upto(side, other, n) == n,
    decreases n,
{
    if n > 0 {
        lemma_positions_split(side, other, (n - 1) as nat);
    }
}

/// The two peg counts of a score never add up to more than the number of
/// positions.
pub proof fn lemma_score_bounded(secret: Seq<Color>, guess: Seq<Color>)
    ensures
        exact_matches(secret, guess) + color_matches(secret, guess) <= secret.len(),
{
    lemma_positions_split(secret, guess, secret.len());
}

/// Comparing a sequence with itself over its first `n` positions finds `n`
/// exact matches and leaves no peg of any colour over.
pub proof fn lemma_same_upto(code: Seq<Color>, color: Color, n: nat)
    ensures
        exact_upto(code, code, n) == n,
        spare_upto(code, code, color, n) == 0,
    decreases n,
{
    if n > 0 {
        lemma_same_upto(code, color, (n - 1) as nat);
    }
}

/// A guess that repeats the secret scores every position as an exact match
/// and nothing as a colour-only match.
pub proof fn lemma_score_of_secret_itself(secret: Seq<Color>)
    ensures
        exact_matches(secret, secret) == secret.len(),
        color_matches(secret, secret) == 0,
{
    lemma_same_upto(secret, Color::Red, secret.len());
    lemma_same_upto(secret, Color::Blue, secret.len());
    lemma_same_upto(secret, Color::Green, secret.len());
    lemma_same_upto(secret, Color::Yellow, secret.len());
    lemma_same_upto(secret, Color::Purple, secret.len());
    lemma_same_upto(secret, Color::Orange, secret.len());
}

/// The exact matches do not depend on which side is called the secret.
pub proof fn lemma_exact_upto_symmetric(secret: Seq<Color>, guess: Seq<Color>, n: nat)
    ensures
        exact_upto(secret, guess, n) == exact_upto(guess, secret, n),
    decreases n,
{
    if n > 0 {
        lemma_exact_upto_symmetric(secret, guess, (n - 1) as nat);
    }
}

/// Exchanging secret and guess leaves both peg counts as they are, whichever
/// side repeats a colour.
pub proof fn lemma_score_symmetric(secret: Seq<Color>, guess: Seq<Color>)
    requires
        secret.len() == guess.len(),
    ensures
        exact_matches(secret, guess) == exact_matches(guess, secret),
        color_matches(secret, guess) == color_matches(guess, secret),
{
    lemma_exact_upto_symmetric(secret, guess, secret.len());
}

} // verus!
