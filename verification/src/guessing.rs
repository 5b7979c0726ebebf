//! The number-guessing engine: a secret integer in `[1, 100]`, at most ten
//! trials, and `{too low, too high, correct}` feedback per guess.

use vstd::prelude::*;

verus! {

use crate::store::GameKind;
use crate::store::ScoreRecord;

/// What one submitted guess is answered with.
#[derive(Clone, Copy, Debug, PartialEq, Eq, Structural)]
pub enum GuessFeedback {
    /// The guess lies outside `[1, 100]`; no trial is consumed.
    OutOfRange,
    TooLow,
    TooHigh,
    Correct,
}

/// One number-guessing round: a secret in `[1, 100]`, a trial budget that
/// starts at ten, and the history of incorrect guesses.
pub struct GuessRound {
    pub secret: u32,
    pub remaining_trials: i32,
    pub numbers_tested: Vec<u32>,
    pub won: bool,
}

impl GuessRound {
    /// The round is well formed: the secret is in range, the trial budget is
    /// within bounds, the history holds one entry per consumed trial, and a
    /// won round kept a positive budget.
    pub open spec fn wf(self) -> bool {
        &&& 1 <= self.secret <= 100
        &&& 0 <= self.remaining_trials <= 10
        &&& self.numbers_tested@.len() == 10 - self.remaining_trials
        &&& (self.won ==> self.remaining_trials > 0)
    }

    /// Guesses are accepted while the round is neither won nor exhausted.
    pub open spec fn in_progress(self) -> bool {
        !self.won && self.remaining_trials > 0
    }

    /// The feedback owed to `guess`: out-of-range guesses are rejected,
    /// in-range ones are compared to the secret.
    pub open spec fn feedback_spec(self, guess: u32) -> GuessFeedback {
        if !(1 <= guess <= 100) {
            GuessFeedback::OutOfRange
        } else if guess < self.secret {
            GuessFeedback::TooLow
        } else if guess > self.secret {
            GuessFeedback::TooHigh
        } else {
            GuessFeedback::Correct
        }
    }

    /// The score owed at round end: `remaining_trials * 10` after a win,
    /// `0` after exhaustion.
    pub open spec fn score_spec(self) -> int {
        if self.won {
            self.remaining_trials * 10
        } else {
            0
        }
    }

    pub fn new(secret: u32) -> (r: GuessRound)
        requires
            1 <= secret <= 100,
        ensures
            r.wf(),
            r.secret == secret,
            r.remaining_trials == 10,
            r.numbers_tested@ == Seq::<u32>::empty(),
            !r.won,
    {
        GuessRound { secret, remaining_trials: 10, numbers_tested: Vec::new(), won: false }
    }

    /// Starts a round on a freshly drawn secret.
    pub fn new_random() -> (r: GuessRound)
        ensures
            r.wf(),
            r.remaining_trials == 10,
            r.numbers_tested@ == Seq::<u32>::empty(),
            !r.won,
    {
        let s: u64 = crate::rng::random_between(1, 100);
        GuessRound::new(s as u32)
    }

    /// Answers one guess. An out-of-range guess consumes no trial; a correct
    /// guess wins the round and keeps the budget; an incorrect in-range guess
    /// consumes one trial and is appended to the history.
    pub fn submit_guess(&mut self, guess: u32) -> (fb: GuessFeedback)
        requires
            old(self).wf(),
            old(self).in_progress(),
        ensures
            final(self).wf(),
            fb == old(self).feedback_spec(guess),
            final(self).secret == old(self).secret,
            final(self).won == (fb is Correct),
            (fb is OutOfRange || fb is Correct) ==> {
                &&& final(self).remaining_trials == old(self).remaining_trials
                &&& final(self).numbers_tested@ == old(self).numbers_tested@
            },
            (fb is TooLow || fb is TooHigh) ==> {
                &&& final(self).remaining_trials == old(self).remaining_trials - 1
                &&& final(self).numbers_tested@ == old(self).numbers_tested@.push(guess)
            },
    {
        if !(1 <= guess && guess <= 100) {
            GuessFeedback::OutOfRange
        } else if guess == self.secret {
            self.won = true;
            GuessFeedback::Correct
        } else {
            self.remaining_trials = self.remaining_trials - 1;
            self.numbers_tested.push(guess);
            if guess < self.secret {
                GuessFeedback::TooLow
            } else {
                GuessFeedback::TooHigh
            }
        }
    }

    /// The score of the round so far; meaningful once the round is over.
    pub fn score(&self) -> (s: i32)
        requires
            self.wf(),
        ensures
            s == self.score_spec(),
            0 <= s <= 100,
    {
        if self.won {
            self.remaining_trials * 10
        } else {
            0
        }
    }

    /// A round that ends on a correct guess with `t` trials remaining
    /// scores `t * 10`; one that ends by exhaustion scores zero.
    pub proof fn lemma_round_score(self)
        requires
            self.wf(),
        ensures
            self.won ==> self.score_spec() == self.remaining_trials * 10,
            !self.won ==> self.score_spec() == 0,
    {
    }

    /// The one score record emitted for this round.
    pub fn score_record(&self, user_id: i64, username: String) -> (r: ScoreRecord)
        requires
            self.wf(),
        ensures
            r.wf(),
            r.game == GameKind::NumberGuess,
            r.user_id == user_id,
            r.username@ == username@,
            r.value == self.score_spec(),
    {
        let value: i32 = self.score();
        ScoreRecord::new(GameKind::NumberGuess, user_id, username, value)
    }
}

} // verus!
