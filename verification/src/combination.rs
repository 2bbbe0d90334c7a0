//! The codemaker's secret, the codebreaker's guess, and the comparison of the
//! two.

use vstd::prelude::*;
use crate::color::Color;
use crate::score::{
    color_matches, exact_matches, exact_upto, fewer, lemma_score_bounded,
    lemma_score_of_secret_itself, spare_upto,
};

verus! {

/// No colour occurs at two positions.
pub open spec fn pairwise_distinct(colors: Seq<Color>) -> bool {
    forall|i: int, j: int| 0 <= i < j < colors.len() ==> colors[i] != colors[j]
}

/// How a combination is shown: the four colour names in order, separated by
/// a comma and a space, in round brackets.
pub open spec fn rendered(colors: Seq<Color>) -> Seq<char> {
    "("@ + colors[0].name() + ", "@ + colors[1].name() + ", "@ + colors[2].name() + ", "@
        + colors[3].name() + ")"@
}

/// The codemaker's secret: four colours in order, fixed once made.
#[derive(Debug)]
pub struct ColorCombination {
    color1: Color,
    color2: Color,
    color3: Color,
    color4: Color,
}

/// The codebreaker's guess: four colours in order, repeats allowed.
pub struct Codebreaker {
    color1: Color,
    color2: Color,
    color3: Color,
    color4: Color,
}

impl View for ColorCombination {
    type V = Seq<Color>;

    closed spec fn view(&self) -> Seq<Color> {
        seq![self.color1, self.color2, self.color3, self.color4]
    }
}

impl View for Codebreaker {
    type V = Seq<Color>;

    closed spec fn view(&self) -> Seq<Color> {
        seq![self.color1, self.color2, self.color3, self.color4]
    }
}

impl Codebreaker {
    /// A guess has four positions.
    pub proof fn lemma_four_positions(&self)
        ensures
            self@.len() == 4,
    {
    }

    /// A guess with the given colours, first position first.
    pub fn new(color1: Color, color2: Color, color3: Color, color4: Color) -> (guess: Codebreaker)
        ensures
            guess@ == seq![color1, color2, color3, color4],
    {
        Codebreaker { color1, color2, color3, color4 }
    }
}

impl ColorCombination {
    /// A secret is playable when its four colours are all different.
    pub open spec fn is_valid_secret(&self) -> bool {
        pairwise_distinct(self@)
    }

    /// A combination has four positions.
    pub proof fn lemma_four_positions(&self)
        ensures
            self@.len() == 4,
    {
    }

    /// A combination with the given colours, first position first. The
    /// colours are taken as they are; choosing four different ones is up to
    /// the caller.
    pub fn new(color1: Color, color2: Color, color3: Color, color4: Color) -> (secret:
        ColorCombination)
        ensures
            secret@ == seq![color1, color2, color3, color4],
    {
        ColorCombination { color1, color2, color3, color4 }
    }

    /// The combination as text, such as `(Red, Blue, Green, Yellow)`.
    pub fn get_codemaker_input(&self) -> (text: String)
        ensures
            text@ == rendered(self@),
    {
        let mut text = String::from_str("(");
        text.append(self.color1.as_str());
        text.append(", ");
        text.append(self.color2.as_str());
        text.append(", ");
        text.append(self.color3.as_str());
        text.append(", ");
        text.append(self.color4.as_str());
        text.append(")");
        text
    }

    /// Scores a guess against this combination: the exact matches first, the
    /// colour-only matches second.
    pub fn compare_codebreaker_codemaker(&self, codebreaker: &Codebreaker) -> (pegs: (u32, u32))
        ensures
            pegs.0 == exact_matches(self@, codebreaker@),
            pegs.1 == color_matches(self@, codebreaker@),
            pegs.0 + pegs.1 <= 4,
    {
        let codemaker_colors: [Color; 4] = [self.color1, self.color2, self.color3, self.color4];
        let codebreaker_colors: [Color; 4] = [
            codebreaker.color1,
            codebreaker.color2,
            codebreaker.color3,
            codebreaker.color4,
        ];

        let mut black_pegs: u32 = 0;
        let mut white_pegs: u32 = 0;

        let mut codemaker_checked: [bool; 4] = [false; 4];
        let mut codebreaker_checked: [bool; 4] = [false; 4];

        // Black pegs: right colour in the right position.
        for i in 0..4usize
            invariant
                codemaker_colors@ == self@,
                codebreaker_colors@ == codebreaker@,
                black_pegs == exact_upto(self@, codebreaker@, i as nat),
                black_pegs <= i,
                forall|k: int|
                    0 <= k < 4 ==> codemaker_checked@[k] == (k < i && self@[k] == codebreaker@[k]),
                forall|k: int|
                    0 <= k < 4 ==> codebreaker_checked@[k] == (k < i && self@[k] == codebreaker@[k]),
        {
            if codemaker_colors[i] == codebreaker_colors[i] {
                black_pegs += 1;
                codemaker_checked[i] = true;
                codebreaker_checked[i] = true;
            }
        }

        proof {
            lemma_pairing_starts(codemaker_checked@, self@, codebreaker@);
        }

        // White pegs: right colour in a wrong position.
        for i in 0..4usize
            invariant
                codemaker_colors@ == self@,
                codebreaker_colors@ == codebreaker@,
                forall|k: int|
                    0 <= k < 4 ==> codebreaker_checked@[k] == (self@[k] == codebreaker@[k]),
                forall|k: int|
                    0 <= k < 4 && self@[k] == codebreaker@[k] ==> codemaker_checked@[k],
                paired(codemaker_checked@, self@, codebreaker@, i as nat),
                white_pegs == taken_total(codemaker_checked@, self@, codebreaker@),
                white_pegs <= i,
        {
            if !codebreaker_checked[i] {
                let mut j: usize = 0;
                while j < 4
                    invariant_except_break
                        j <= 4,
                        forall|k: int|
                            0 <= k < j ==> codemaker_checked@[k] || self@[k] != codebreaker@[i as int],
                        paired(codemaker_checked@, self@, codebreaker@, i as nat),
                        j == 4 ==> paired(codemaker_checked@, self@, codebreaker@, (i + 1) as nat),
                        white_pegs == taken_total(codemaker_checked@, self@, codebreaker@),
                        white_pegs <= i,
                    invariant
                        i < 4,
                        self@[i as int] != codebreaker@[i as int],
                        codemaker_colors@ == self@,
                        codebreaker_colors@ == codebreaker@,
                        forall|k: int|
                            0 <= k < 4 && self@[k] == codebreaker@[k] ==> codemaker_checked@[k],
                    ensures
                        paired(codemaker_checked@, self@, codebreaker@, (i + 1) as nat),
                        white_pegs == taken_total(codemaker_checked@, self@, codebreaker@),
                        white_pegs <= i + 1,
                    decreases 4 - j,
                {
                    if !codemaker_checked[j] && codemaker_colors[j] == codebreaker_colors[i] {
                        proof {
                            lemma_take(codemaker_checked@, self@, codebreaker@, i as nat, j as int);
                        }
                        white_pegs += 1;
                        codemaker_checked[j] = true;
                        break;
                    }
                    j += 1;
                    proof {
                        if j == 4 {
                            lemma_no_take(codemaker_checked@, self@, codebreaker@, i as nat);
                        }
                    }
                }
            } else {
                proof {
                    lemma_skip_exact(codemaker_checked@, self@, codebreaker@, i as nat);
                }
            }
        }

        proof {
            lemma_pairing_ends(codemaker_checked@, self@, codebreaker@);
            lemma_score_bounded(self@, codebreaker@);
        }
        (black_pegs, white_pegs)
    }
}

/// A guess that repeats the secret, colour for colour, scores four exact
/// matches and no colour-only match.
pub proof fn lemma_secret_guessed(secret: ColorCombination, guess: Codebreaker)
    requires
        guess@ == secret@,
    ensures
        exact_matches(secret@, guess@) == 4,
        color_matches(secret@, guess@) == 0,
{
    lemma_score_of_secret_itself(secret@);
}

// What follows is the argument that the second pass of the comparison
// counts the colour-only matches. The pass marks secret pegs as it pairs them
// with guess pegs; `taken_upto` counts the marked ones that are no exact
// match, colour by colour, and `paired` says that after any number of guess
// pegs each colour has as many taken as the scarcer side allows.

/// The number of positions below `n` that are marked in `used` and at which
/// the secret shows `color` and the guess something else: the spare pegs of
/// the secret that a colour-only match has already taken.
spec fn taken_upto(
    used: Seq<bool>,
    secret: Seq<Color>,
    guess: Seq<Color>,
    color: Color,
    n: nat,
) -> nat
    decreases n,
{
    if n == 0 {
        0
    } else {
        let rest = taken_upto(used, secret, guess, color, (n - 1) as nat);
        if used[n - 1] && secret[n - 1] == color && guess[n - 1] != color {
            rest + 1
        } else {
            rest
        }
    }
}

/// After the first `seen` positions of the guess, the spare secret pegs of
/// `color` that are taken are as many as the scarcer side allows.
spec fn paired_for(
    used: Seq<bool>,
    secret: Seq<Color>,
    guess: Seq<Color>,
    seen: nat,
    color: Color,
) -> bool {
    taken_upto(used, secret, guess, color, 4) == fewer(
        spare_upto(secret, guess, color, 4),
        spare_upto(guess, secret, color, seen),
    )
}

/// `paired_for` for every colour of the palette.
spec fn paired(used: Seq<bool>, secret: Seq<Color>, guess: Seq<Color>, seen: nat) -> bool {
    &&& paired_for(used, secret, guess, seen, Color::Red)
    &&& paired_for(used, secret, guess, seen, Color::Blue)
    &&& paired_for(used, secret, guess, seen, Color::Green)
    &&& paired_for(used, secret, guess, seen, Color::Yellow)
    &&& paired_for(used, secret, guess, seen, Color::Purple)
    &&& paired_for(used, secret, guess, seen, Color::Orange)
}

/// The spare secret pegs that are taken, all colours together.
spec fn taken_total(used: Seq<bool>, secret: Seq<Color>, guess: Seq<Color>) -> nat {
    taken_upto(used, secret, guess, Color::Red, 4)
        + taken_upto(used, secret, guess, Color::Blue, 4)
        + taken_upto(used, secret, guess, Color::Green, 4)
        + taken_upto(used, secret, guess, Color::Yellow, 4)
        + taken_upto(used, secret, guess, Color::Purple, 4)
        + taken_upto(used, secret, guess, Color::Orange, 4)
}

/// Pegs that only exact matches have marked are not taken by any colour-only
/// match.
proof fn lemma_none_taken(
    used: Seq<bool>,
    secret: Seq<Color>,
    guess: Seq<Color>,
    color: Color,
    n: nat,
)
    requires
        forall|k: int| 0 <= k < n && used[k] ==> secret[k] == guess[k],
    ensures
        taken_upto(used, secret, guess, color, n) == 0,
    decreases n,
{
    if n > 0 {
        lemma_none_taken(used, secret, guess, color, (n - 1) as nat);
    }
}

/// No more pegs of a colour are taken than are spare; and fewer, as long as a
/// spare one at `free` is unmarked.
proof fn lemma_taken_below_spare(
    used: Seq<bool>,
    secret: Seq<Color>,
    guess: Seq<Color>,
    color: Color,
    n: nat,
    free: int,
)
    ensures
        taken_upto(used, secret, guess, color, n) <= spare_upto(secret, guess, color, n),
        0 <= free < n && !used[free] && secret[free] == color && guess[free] != color
            ==> taken_upto(used, secret, guess, color, n) < spare_upto(secret, guess, color, n),
    decreases n,
{
    if n > 0 {
        lemma_taken_below_spare(used, secret, guess, color, (n - 1) as nat, free);
    }
}

/// Once every spare peg of a colour is marked, all of them are taken.
proof fn lemma_all_taken(
    used: Seq<bool>,
    secret: Seq<Color>,
    guess: Seq<Color>,
    color: Color,
    n: nat,
)
    requires
        forall|k: int| 0 <= k < n && secret[k] == color && guess[k] != color ==> used[k],
    ensures
        taken_upto(used, secret, guess, color, n) == spare_upto(secret, guess, color, n),
    decreases n,
{
    if n > 0 {
        lemma_all_taken(used, secret, guess, color, (n - 1) as nat);
    }
}

/// Marking one unmarked spare peg takes one more peg of its colour and
/// leaves the other colours as they were.
proof fn lemma_mark(
    used: Seq<bool>,
    secret: Seq<Color>,
    guess: Seq<Color>,
    color: Color,
    n: nat,
    at: int,
)
    requires
        0 <= at < used.len(),
        n <= used.len(),
        !used[at],
        secret[at] != guess[at],
    ensures
        taken_upto(used.update(at, true), secret, guess, color, n)
            == taken_upto(used, secret, guess, color, n)
            + if at < n && secret[at] == color { 1nat } else { 0nat },
    decreases n,
{
    if n > 0 {
        lemma_mark(used, secret, guess, color, (n - 1) as nat, at);
    }
}

/// One colour's share of a step that matches the guess peg at `seen` with the
/// unmarked secret peg at `at`.
proof fn lemma_take_for(
    used: Seq<bool>,
    secret: Seq<Color>,
    guess: Seq<Color>,
    seen: nat,
    at: int,
    color: Color,
)
    requires
        used.len() == 4,
        seen < 4,
        0 <= at < 4,
        !used[at],
        secret[at] == guess[seen as int],
        secret[at] != guess[at],
        secret[seen as int] != guess[seen as int],
        paired_for(used, secret, guess, seen, color),
    ensures
        paired_for(used.update(at, true), secret, guess, seen + 1, color),
        taken_upto(used.update(at, true), secret, guess, color, 4)
            == taken_upto(used, secret, guess, color, 4)
            + if secret[at] == color { 1nat } else { 0nat },
{
    lemma_mark(used, secret, guess, color, 4, at);
    lemma_taken_below_spare(used, secret, guess, color, 4, at);
}

/// A step that matches the guess peg at `seen` with the unmarked secret peg
/// at `at` keeps the pairing and takes exactly one more peg.
proof fn lemma_take(used: Seq<bool>, secret: Seq<Color>, guess: Seq<Color>, seen: nat, at: int)
    requires
        used.len() == 4,
        seen < 4,
        0 <= at < 4,
        !used[at],
        secret[at] == guess[seen as int],
        secret[at] != guess[at],
        secret[seen as int] != guess[seen as int],
        paired(used, secret, guess, seen),
    ensures
        paired(used.update(at, true), secret, guess, seen + 1),
        taken_total(used.update(at, true), secret, guess) == taken_total(used, secret, guess) + 1,
{
    lemma_take_for(used, secret, guess, seen, at, Color::Red);
    lemma_take_for(used, secret, guess, seen, at, Color::Blue);
    lemma_take_for(used, secret, guess, seen, at, Color::Green);
    lemma_take_for(used, secret, guess, seen, at, Color::Yellow);
    lemma_take_for(used, secret, guess, seen, at, Color::Purple);
    lemma_take_for(used, secret, guess, seen, at, Color::Orange);
}

/// A guess peg that finds every secret peg of its colour marked has no
/// partner, and the pairing stands as it is.
proof fn lemma_no_take(used: Seq<bool>, secret: Seq<Color>, guess: Seq<Color>, seen: nat)
    requires
        seen < 4,
        forall|k: int| 0 <= k < 4 ==> used[k] || secret[k] != guess[seen as int],
        paired(used, secret, guess, seen),
    ensures
        paired(used, secret, guess, seen + 1),
{
    lemma_all_taken(used, secret, guess, guess[seen as int], 4);
}

/// A guess peg that is an exact match leaves no spare peg, and the pairing
/// stands as it is.
proof fn lemma_skip_exact(used: Seq<bool>, secret: Seq<Color>, guess: Seq<Color>, seen: nat)
    requires
        secret[seen as int] == guess[seen as int],
        paired(used, secret, guess, seen),
    ensures
        paired(used, secret, guess, seen + 1),
{
}

/// Before any guess peg is seen, nothing is taken and the pairing holds.
proof fn lemma_pairing_starts(used: Seq<bool>, secret: Seq<Color>, guess: Seq<Color>)
    requires
        forall|k: int| 0 <= k < 4 && used[k] ==> secret[k] == guess[k],
    ensures
        paired(used, secret, guess, 0),
        taken_total(used, secret, guess) == 0,
{
    lemma_none_taken(used, secret, guess, Color::Red, 4);
    lemma_none_taken(used, secret, guess, Color::Blue, 4);
    lemma_none_taken(used, secret, guess, Color::Green, 4);
    lemma_none_taken(used, secret, guess, Color::Yellow, 4);
    lemma_none_taken(used, secret, guess, Color::Purple, 4);
    lemma_none_taken(used, secret, guess, Color::Orange, 4);
}

/// With every guess peg seen, the pegs taken are the colour-only matches.
proof fn lemma_pairing_ends(used: Seq<bool>, secret: Seq<Color>, guess: Seq<Color>)
    requires
        secret.len() == 4,
        guess.len() == 4,
        paired(used, secret, guess, 4),
    ensures
        taken_total(used, secret, guess) == color_matches(secret, guess),
{
}

} // verus!
