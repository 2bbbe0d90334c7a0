//! The course of a game: whose move it is, how many turns are spent, and when
//! the game is won or lost.
//!
//! The rules are written once, as functions on `SessionView`; `Session` is
//! the value that a program carries, and each of its methods is one of those
//! functions. A program reads a guess, calls `play_turn`, and shows what the
//! report says.

use vstd::prelude::*;
use crate::combination::{rendered, Codebreaker, ColorCombination};
use crate::score::{color_matches, exact_matches};

verus! {

/// The number of turns after which a codebreaker who has not found the
/// secret has lost.
pub const TURN_LIMIT: u32 = 2;

/// The number of exact matches that wins the game: one for each position.
pub const WINNING_MATCHES: u32 = 4;

/// Whether an attempt at a guess that fails before it can be scored spends a
/// turn all the same. It does.
pub const REJECTED_GUESS_SPENDS_TURN: bool = true;

/// Where a game stands.
#[derive(Debug, PartialEq, Eq, Clone, Copy, Structural)]
pub enum Phase {
    /// The codebreaker is to submit a guess.
    AwaitingGuess,
    /// A guess has been taken and its score is due.
    Scoring,
    /// The codebreaker found the secret. Nothing follows.
    Won,
    /// The turns ran out. Nothing follows.
    Lost,
}

/// A game as the rules see it: its phase and the number of turns spent.
pub ghost struct SessionView {
    pub phase: Phase,
    pub turn: nat,
}

impl SessionView {
    /// A game before its first turn.
    pub open spec fn start() -> SessionView {
        SessionView { phase: Phase::AwaitingGuess, turn: 0 }
    }

    /// The attempt at a guess failed: the codebreaker is asked again, and
    /// the turn is spent or not as `REJECTED_GUESS_SPENDS_TURN` says.
    pub open spec fn reject(self) -> SessionView {
        SessionView {
            phase: Phase::AwaitingGuess,
            turn: if REJECTED_GUESS_SPENDS_TURN {
                self.turn + 1
            } else {
                self.turn
            },
        }
    }

    /// A guess of four colours was taken: the turn is spent and the score is
    /// due.
    pub open spec fn accept(self) -> SessionView {
        SessionView { phase: Phase::Scoring, turn: self.turn + 1 }
    }

    /// The guess scored `exact` exact matches: with all positions matched
    /// the game is won; failing that, it is lost if the turn just spent was
    /// the last one allowed, and goes on otherwise.
    pub open spec fn record(self, exact: nat) -> SessionView {
        SessionView {
            phase: if exact == WINNING_MATCHES {
                Phase::Won
            } else if self.turn == TURN_LIMIT {
                Phase::Lost
            } else {
                Phase::AwaitingGuess
            },
            turn: self.turn,
        }
    }

    /// A whole turn with a guess that scores `exact` exact matches.
    pub open spec fn turn_with(self, exact: nat) -> SessionView {
        self.accept().record(exact)
    }

    /// Whether the game has ended.
    pub open spec fn is_over(self) -> bool {
        self.phase == Phase::Won || self.phase == Phase::Lost
    }
}

/// The state of one game.
pub struct Session {
    phase: Phase,
    turn: u32,
}

impl View for Session {
    type V = SessionView;

    closed spec fn view(&self) -> SessionView {
        SessionView { phase: self.phase, turn: self.turn as nat }
    }
}

impl Session {
    /// A game before its first turn.
    pub fn new() -> (session: Session)
        ensures
            session@ == SessionView::start(),
    {
        Session { phase: Phase::AwaitingGuess, turn: 0 }
    }

    /// Where the game stands.
    pub fn phase(&self) -> (phase: Phase)
        ensures
            phase == self@.phase,
    {
        self.phase
    }

    /// The number of turns spent so far.
    pub fn turn(&self) -> (turn: u32)
        ensures
            turn == self@.turn,
    {
        self.turn
    }

    /// Whether the game has ended.
    pub fn is_over(&self) -> (over: bool)
        ensures
            over == self@.is_over(),
    {
        self.phase == Phase::Won || self.phase == Phase::Lost
    }

    /// Notes that an attempt at a guess failed before it could be scored.
    /// The game does not move on to scoring.
    pub fn reject_guess(&mut self)
        requires
            old(self)@.phase == Phase::AwaitingGuess,
            old(self)@.turn < u32::MAX,
        ensures
            final(self)@ == old(self)@.reject(),
    {
        if REJECTED_GUESS_SPENDS_TURN {
            self.turn = self.turn + 1;
        }
    }

    /// Notes that a guess of four colours was taken and is to be scored.
    pub fn accept_guess(&mut self)
        requires
            old(self)@.phase == Phase::AwaitingGuess,
            old(self)@.turn < u32::MAX,
        ensures
            final(self)@ == old(self)@.accept(),
    {
        self.turn = self.turn + 1;
        self.phase = Phase::Scoring;
    }

    /// Settles the turn once the guess is scored.
    pub fn record_score(&mut self, exact_matches: u32)
        requires
            old(self)@.phase == Phase::Scoring,
        ensures
            final(self)@ == old(self)@.record(exact_matches as nat),
    {
        if exact_matches == WINNING_MATCHES {
            self.phase = Phase::Won;
        } else if self.turn == TURN_LIMIT {
            self.phase = Phase::Lost;
        } else {
            self.phase = Phase::AwaitingGuess;
        }
    }
}

/// How a turn ended.
#[derive(Debug)]
pub enum TurnOutcome {
    /// The guess was wrong and turns are left.
    Continue,
    /// The guess was the secret.
    Won,
    /// The guess was wrong and it was the last turn. The secret is revealed,
    /// as text.
    Lost { secret: String },
}

/// What there is to tell the codebreaker after a turn.
#[derive(Debug)]
pub struct TurnReport {
    /// Pegs of the right colour in the right position.
    pub exact_matches: u32,
    /// Further pegs of a right colour, in a wrong position.
    pub color_matches: u32,
    /// Whether the game goes on, and if not, how it ended.
    pub outcome: TurnOutcome,
}

/// Plays one turn: takes the guess, scores it against the secret and settles
/// the game. The report carries the score in every case, and the secret only
/// when the game is lost.
pub fn play_turn(secret: &ColorCombination, guess: &Codebreaker, session: &mut Session) -> (report:
    TurnReport)
    requires
        old(session)@.phase == Phase::AwaitingGuess,
        old(session)@.turn < u32::MAX,
    ensures
        report.exact_matches == exact_matches(secret@, guess@),
        report.color_matches == color_matches(secret@, guess@),
        final(session)@ == old(session)@.turn_with(exact_matches(secret@, guess@)),
        match report.outcome {
            TurnOutcome::Continue => final(session)@.phase == Phase::AwaitingGuess,
            TurnOutcome::Won => final(session)@.phase == Phase::Won,
            TurnOutcome::Lost { secret: revealed } => {
                &&& final(session)@.phase == Phase::Lost
                &&& revealed@ == rendered(secret@)
            },
        },
{
    session.accept_guess();
    let (black_pegs, white_pegs) = secret.compare_codebreaker_codemaker(guess);
    session.record_score(black_pegs);
    let outcome = match session.phase() {
        Phase::Won => TurnOutcome::Won,
        Phase::Lost => TurnOutcome::Lost { secret: secret.get_codemaker_input() },
        _ => TurnOutcome::Continue,
    };
    TurnReport { exact_matches: black_pegs, color_matches: white_pegs, outcome }
}

/// From the start, two guesses in a row that each miss at least one position
/// lose the game; a guess that matches every position wins it, on the first
/// turn or on the second.
pub proof fn lemma_two_turns_decide(first: nat, second: nat)
    ensures
        first == WINNING_MATCHES ==> SessionView::start().turn_with(first).phase == Phase::Won,
        first != WINNING_MATCHES ==> SessionView::start().turn_with(first).phase
            == Phase::AwaitingGuess,
        first != WINNING_MATCHES && second == WINNING_MATCHES ==> SessionView::start().turn_with(
            first,
        ).turn_with(second).phase == Phase::Won,
        first != WINNING_MATCHES && second != WINNING_MATCHES ==> SessionView::start().turn_with(
            first,
        ).turn_with(second).phase == Phase::Lost,
{
}

/// A failed attempt at a guess never leads to scoring: the game waits for a
/// guess as before, with one more turn spent.
pub proof fn lemma_rejection_awaits_guess(before: SessionView)
    requires
        before.phase == Phase::AwaitingGuess,
    ensures
        before.reject().phase == Phase::AwaitingGuess,
        before.reject().turn == before.turn + 1,
{
}

} // verus!
