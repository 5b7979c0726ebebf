//! The word-guessing engine: theme selection, word-list checks, and the
//! per-round letter feedback.
//!
//! Feedback uses budgeted multiset semantics: a guessed letter is reported
//! as misplaced only while the secret still has an occurrence of it that is
//! neither matched exactly nor already claimed by an earlier guess position.

use vstd::prelude::*;

verus! {

use crate::store::GameKind;
use crate::store::ScoreRecord;
use crate::text::normalized_of;
use crate::text::remove_accents;

/// The closed set of themes a word list can be drawn from.
#[derive(Clone, Copy, Debug, PartialEq, Eq, Structural)]
pub enum Theme {
    English,
    FrAgriculture,
    FrArmee,
    FrAnimaux,
    FrIndustrie,
    FrNourriture,
}

impl Theme {
    /// The theme selected by a numeric menu choice; choices outside `1..=6`
    /// select none.
    pub open spec fn from_choice_spec(choice: u32) -> Option<Theme> {
        if choice == 1 {
            Some(Theme::English)
        } else if choice == 2 {
            Some(Theme::FrAgriculture)
        } else if choice == 3 {
            Some(Theme::FrArmee)
        } else if choice == 4 {
            Some(Theme::FrAnimaux)
        } else if choice == 5 {
            Some(Theme::FrIndustrie)
        } else if choice == 6 {
            Some(Theme::FrNourriture)
        } else {
            None
        }
    }

    pub fn from_choice(choice: u32) -> (r: Option<Theme>)
        ensures
            r == Theme::from_choice_spec(choice),
    {
        match choice {
            1 => Some(Theme::English),
            2 => Some(Theme::FrAgriculture),
            3 => Some(Theme::FrArmee),
            4 => Some(Theme::FrAnimaux),
            5 => Some(Theme::FrIndustrie),
            6 => Some(Theme::FrNourriture),
            _ => None,
        }
    }

    pub open spec fn label_spec(self) -> Seq<char> {
        match self {
            Theme::English => "english words"@,
            Theme::FrAgriculture => "french agriculture"@,
            Theme::FrArmee => "french army"@,
            Theme::FrAnimaux => "french animals"@,
            Theme::FrIndustrie => "french industry"@,
            Theme::FrNourriture => "french food"@,
        }
    }

    /// The display label of the theme.
    pub fn as_str(&self) -> (r: &'static str)
        ensures
            r@ == self.label_spec(),
    {
        match self {
            Theme::English => "english words",
            Theme::FrAgriculture => "french agriculture",
            Theme::FrArmee => "french army",
            Theme::FrAnimaux => "french animals",
            Theme::FrIndustrie => "french industry",
            Theme::FrNourriture => "french food",
        }
    }

    pub open spec fn endpoint_spec(self) -> Seq<char> {
        match self {
            Theme::English => "https://random-word-api.herokuapp.com/word?number=50&length=5"@,
            Theme::FrAgriculture => "https://trouve-mot.fr/api/categorie/11/50"@,
            Theme::FrArmee => "https://trouve-mot.fr/api/categorie/26/50"@,
            Theme::FrAnimaux => "https://trouve-mot.fr/api/categorie/19/50"@,
            Theme::FrIndustrie => "https://trouve-mot.fr/api/categorie/9/50"@,
            Theme::FrNourriture => "https://trouve-mot.fr/api/categorie/5/50"@,
        }
    }

    /// The word-source endpoint the theme's list is fetched from.
    pub fn api_endpoint(&self) -> (r: &'static str)
        ensures
            r@ == self.endpoint_spec(),
    {
        match self {
            Theme::English => "https://random-word-api.herokuapp.com/word?number=50&length=5",
            Theme::FrAgriculture => "https://trouve-mot.fr/api/categorie/11/50",
            Theme::FrArmee => "https://trouve-mot.fr/api/categorie/26/50",
            Theme::FrAnimaux => "https://trouve-mot.fr/api/categorie/19/50",
            Theme::FrIndustrie => "https://trouve-mot.fr/api/categorie/9/50",
            Theme::FrNourriture => "https://trouve-mot.fr/api/categorie/5/50",
        }
    }
}

/// The two ways a whole word-guessing invocation is aborted before any
/// round starts.
#[derive(Clone, Copy, Debug, PartialEq, Eq, Structural)]
pub enum MotusError {
    /// The theme choice was outside the menu range.
    InvalidChoice,
    /// The fetched word list was empty.
    NoWords,
}

impl MotusError {
    pub open spec fn message_spec(self) -> Seq<char> {
        match self {
            MotusError::InvalidChoice => "Invalid choice. Exiting game."@,
            MotusError::NoWords => "No words found for the selected theme. Exiting game."@,
        }
    }

    /// The message shown to the player when the invocation is aborted.
    pub fn message(&self) -> (r: &'static str)
        ensures
            r@ == self.message_spec(),
    {
        match self {
            MotusError::InvalidChoice => "Invalid choice. Exiting game.",
            MotusError::NoWords => "No words found for the selected theme. Exiting game.",
        }
    }
}

/// Maps the menu choice to a theme, or aborts the invocation: an
/// out-of-range choice is answered with `InvalidChoice` and nothing else
/// happens.
pub fn validate_theme(choice: u32) -> (r: Result<Theme, MotusError>)
    ensures
        r is Ok <==> Theme::from_choice_spec(choice) is Some,
        r matches Ok(t) ==> Some(t) == Theme::from_choice_spec(choice),
        r matches Err(e) ==> e == MotusError::InvalidChoice,
{
    match Theme::from_choice(choice) {
        Some(t) => Ok(t),
        None => Err(MotusError::InvalidChoice),
    }
}

/// Normalizes every fetched word before storage.
pub fn normalize_words(words: &Vec<String>) -> (r: Vec<String>)
    ensures
        r@.len() == words@.len(),
        forall|i: int| 0 <= i < words@.len() ==> r@[i]@ == normalized_of(words@[i]@),
{
    let mut r: Vec<String> = Vec::new();
    let mut i: usize = 0;
    while i < words.len()
        invariant
            i <= words@.len(),
            r@.len() == i,
            forall|j: int| 0 <= j < i ==> r@[j]@ == normalized_of(words@[j]@),
        decreases words@.len() - i,
    {
        r.push(remove_accents(words[i].as_str()));
        i = i + 1;
    }
    r
}

/// Draws the round's secret uniformly from the word list; an empty list
/// aborts the invocation with `NoWords`, and no round starts.
pub fn draw_secret(words: &Vec<String>) -> (r: Result<String, MotusError>)
    ensures
        r is Ok <==> words@.len() > 0,
        r matches Ok(w) ==> exists|i: int| 0 <= i < words@.len() && w@ == words@[i]@,
        r matches Err(e) ==> e == MotusError::NoWords,
{
    if words.len() == 0 {
        Err(MotusError::NoWords)
    } else {
        let i: u64 = crate::rng::random_between(0, (words.len() - 1) as u64);
        let w: String = words[i as usize].clone();
        Ok(w)
    }
}

/// The per-position marks: the guessed character where it matches the
/// secret at that position, a blank otherwise.
pub open spec fn correct_marks(g: Seq<char>, s: Seq<char>) -> Seq<char> {
    Seq::new(g.len(), |i: int| if g[i] == s[i] { g[i] } else { ' ' })
}

/// How many of the first `n` secret positions hold `c` without an exact
/// match there.
pub open spec fn unmatched_secret_count(g: Seq<char>, s: Seq<char>, c: char, n: int) -> int
    decreases n,
{
    if n <= 0 {
        0
    } else if s[n - 1] == c && g[n - 1] != s[n - 1] {
        unmatched_secret_count(g, s, c, n - 1) + 1
    } else {
        unmatched_secret_count(g, s, c, n - 1)
    }
}

/// How many of the first `n` guess positions hold `c` without an exact
/// match there.
pub open spec fn unmatched_guess_count(g: Seq<char>, s: Seq<char>, c: char, n: int) -> int
    decreases n,
{
    if n <= 0 {
        0
    } else if g[n - 1] == c && g[n - 1] != s[n - 1] {
        unmatched_guess_count(g, s, c, n - 1) + 1
    } else {
        unmatched_guess_count(g, s, c, n - 1)
    }
}

/// Position `i` reports a misplaced letter: no exact match there, and the
/// secret still has an occurrence of the character that is neither matched
/// exactly nor claimed by an earlier guess position.
pub open spec fn misplaced_at(g: Seq<char>, s: Seq<char>, i: int) -> bool {
    &&& g[i] != s[i]
    &&& unmatched_guess_count(g, s, g[i], i) < unmatched_secret_count(g, s, g[i], s.len() as int)
}

/// The misplaced letters reported for the first `n` guess positions, in order.
pub open spec fn misplaced_list(g: Seq<char>, s: Seq<char>, n: int) -> Seq<char>
    decreases n,
{
    if n <= 0 {
        Seq::empty()
    } else if misplaced_at(g, s, n - 1) {
        misplaced_list(g, s, n - 1).push(g[n - 1])
    } else {
        misplaced_list(g, s, n - 1)
    }
}

/// How many times `c` occurs in a sequence.
pub open spec fn count_char(s: Seq<char>, c: char) -> int
    decreases s.len(),
{
    if s.len() == 0 {
        0
    } else if s.last() == c {
        count_char(s.drop_last(), c) + 1
    } else {
        count_char(s.drop_last(), c)
    }
}

proof fn lemma_unmatched_secret_count_nonneg(g: Seq<char>, s: Seq<char>, c: char, n: int)
    requires
        n >= 0,
    ensures
        unmatched_secret_count(g, s, c, n) >= 0,
    decreases n,
{
    if n > 0 {
        lemma_unmatched_secret_count_nonneg(g, s, c, n - 1);
    }
}

/// The budget law of the letter feedback: a character is reported misplaced
/// exactly as often as the smaller of its unmatched occurrences among the
/// first `n` guess positions and its unmatched occurrences in the whole
/// secret. In particular no letter is reported more often than the secret
/// holds it outside exact matches.
pub proof fn lemma_misplaced_budget(g: Seq<char>, s: Seq<char>, c: char, n: int)
    requires
        g.len() == s.len(),
        0 <= n <= g.len(),
    ensures
        count_char(misplaced_list(g, s, n), c) == (if unmatched_guess_count(g, s, c, n)
            <= unmatched_secret_count(g, s, c, s.len() as int) {
            unmatched_guess_count(g, s, c, n)
        } else {
            unmatched_secret_count(g, s, c, s.len() as int)
        }),
    decreases n,
{
    lemma_unmatched_secret_count_nonneg(g, s, c, s.len() as int);
    if n > 0 {
        lemma_misplaced_budget(g, s, c, n - 1);
        let prev = misplaced_list(g, s, n - 1);
        let cur = misplaced_list(g, s, n);
        let usc = unmatched_secret_count(g, s, c, s.len() as int);
        if misplaced_at(g, s, n - 1) {
            assert(cur == prev.push(g[n - 1]));
            assert(cur.drop_last() =~= prev);
            assert(cur.last() == g[n - 1]);
            assert(count_char(cur, c) == count_char(prev, c) + (if g[n - 1] == c {
                1int
            } else {
                0int
            }));
            if g[n - 1] == c {
                assert(unmatched_guess_count(g, s, c, n - 1) < usc);
                assert(unmatched_guess_count(g, s, c, n) == unmatched_guess_count(g, s, c, n - 1)
                    + 1);
            } else {
                assert(unmatched_guess_count(g, s, c, n) == unmatched_guess_count(g, s, c, n - 1));
            }
        } else {
            assert(cur == prev);
            if g[n - 1] == c && g[n - 1] != s[n - 1] {
                assert(!(unmatched_guess_count(g, s, c, n - 1) < usc));
                assert(unmatched_guess_count(g, s, c, n) == unmatched_guess_count(g, s, c, n - 1)
                    + 1);
            } else {
                assert(unmatched_guess_count(g, s, c, n) == unmatched_guess_count(g, s, c, n - 1));
            }
        }
    }
}

fn count_unmatched_secret(g: &Vec<char>, s: &Vec<char>, c: char, n: usize) -> (r: usize)
    requires
        g@.len() == s@.len(),
        n <= s@.len(),
    ensures
        r == unmatched_secret_count(g@, s@, c, n as int),
{
    let mut r: usize = 0;
    let mut j: usize = 0;
    while j < n
        invariant
            j <= n <= s@.len(),
            g@.len() == s@.len(),
            r <= j,
            r == unmatched_secret_count(g@, s@, c, j as int),
        decreases n - j,
    {
        if s[j] == c && g[j] != s[j] {
            r = r + 1;
        }
        j = j + 1;
    }
    r
}

fn count_unmatched_guess(g: &Vec<char>, s: &Vec<char>, c: char, n: usize) -> (r: usize)
    requires
        g@.len() == s@.len(),
        n <= g@.len(),
    ensures
        r == unmatched_guess_count(g@, s@, c, n as int),
{
    let mut r: usize = 0;
    let mut j: usize = 0;
    while j < n
        invariant
            j <= n <= g@.len(),
            g@.len() == s@.len(),
            r <= j,
            r == unmatched_guess_count(g@, s@, c, j as int),
        decreases n - j,
    {
        if g[j] == c && g[j] != s[j] {
            r = r + 1;
        }
        j = j + 1;
    }
    r
}

/// Computes the letter feedback for one guess of the secret's length: the
/// per-position marks and the ordered list of misplaced letters.
pub fn compute_feedback(guess: &Vec<char>, secret: &Vec<char>) -> (r: (Vec<char>, Vec<char>))
    requires
        guess@.len() == secret@.len(),
    ensures
        r.0@ == correct_marks(guess@, secret@),
        r.1@ == misplaced_list(guess@, secret@, guess@.len() as int),
{
    let n: usize = guess.len();
    let mut marks: Vec<char> = Vec::new();
    let mut mis: Vec<char> = Vec::new();
    let mut i: usize = 0;
    while i < n
        invariant
            i <= n,
            n == guess@.len(),
            guess@.len() == secret@.len(),
            marks@ =~= correct_marks(guess@, secret@).subrange(0, i as int),
            mis@ =~= misplaced_list(guess@, secret@, i as int),
        decreases n - i,
    {
        let gc: char = guess[i];
        if gc == secret[i] {
            marks.push(gc);
        } else {
            marks.push(' ');
            let avail: usize = count_unmatched_secret(guess, secret, gc, n);
            let used: usize = count_unmatched_guess(guess, secret, gc, i);
            if used < avail {
                mis.push(gc);
            }
        }
        i = i + 1;
        proof {
            assert(marks@ =~= correct_marks(guess@, secret@).subrange(0, i as int));
        }
    }
    proof {
        assert(marks@ =~= correct_marks(guess@, secret@));
    }
    (marks, mis)
}

/// The guess wins when no position is blank.
pub open spec fn win_spec(marks: Seq<char>) -> bool {
    forall|i: int| 0 <= i < marks.len() ==> marks[i] != ' '
}

pub fn is_win(marks: &Vec<char>) -> (r: bool)
    ensures
        r == win_spec(marks@),
{
    let mut i: usize = 0;
    while i < marks.len()
        invariant
            i <= marks@.len(),
            forall|j: int| 0 <= j < i ==> marks@[j] != ' ',
        decreases marks@.len() - i,
    {
        if marks[i] == ' ' {
            return false;
        }
        i = i + 1;
    }
    true
}

/// For a guess and a secret of equal length over non-blank characters, a
/// position is marked iff the characters agree there, and every position is
/// marked iff the guess equals the secret.
pub proof fn lemma_feedback_law(g: Seq<char>, s: Seq<char>)
    requires
        g.len() == s.len(),
        forall|i: int| 0 <= i < g.len() ==> g[i] != ' ',
    ensures
        forall|i: int| 0 <= i < g.len() ==> (correct_marks(g, s)[i] != ' ' <==> g[i] == s[i]),
        win_spec(correct_marks(g, s)) <==> g == s,
{
    let marks = correct_marks(g, s);
    assert forall|i: int| 0 <= i < g.len() implies (marks[i] != ' ' <==> g[i] == s[i]) by {
        if g[i] == s[i] {
            assert(marks[i] == g[i]);
        } else {
            assert(marks[i] == ' ');
        }
    }
    if win_spec(marks) {
        assert forall|i: int| 0 <= i < g.len() implies g[i] == s[i] by {
            assert(marks[i] != ' ');
        }
        assert(g =~= s);
    }
    if g == s {
        assert forall|i: int| 0 <= i < marks.len() implies marks[i] != ' ' by {
            assert(g[i] == s[i]);
            assert(marks[i] == g[i]);
        }
    }
}

/// What one submitted guess is answered with.
#[derive(Debug, PartialEq)]
pub enum MotusFeedback {
    /// The guess did not have the secret's length; a trial was consumed.
    LengthMismatch,
    /// The guess was compared letter by letter.
    Marks { correct: Vec<char>, misplaced: Vec<char>, win: bool },
}

/// One word-guessing round: a normalized secret word, a trial budget that
/// starts at ten and floors at zero, and whether the word has been found.
pub struct MotusRound {
    pub secret: Vec<char>,
    pub attempts: u32,
    pub won: bool,
}

impl MotusRound {
    pub open spec fn wf(self) -> bool {
        self.attempts <= 10
    }

    /// The score owed at round end: `attempts * 10` at the moment of the
    /// winning guess, `0` while the word is not found.
    pub open spec fn score_spec(self) -> int {
        if self.won {
            self.attempts * 10
        } else {
            0
        }
    }

    pub fn new(secret: Vec<char>) -> (r: MotusRound)
        ensures
            r.wf(),
            r.secret@ == secret@,
            r.attempts == 10,
            !r.won,
    {
        MotusRound { secret, attempts: 10, won: false }
    }

    /// Answers one submitted guess. A guess of the wrong length consumes a
    /// trial and is answered with `LengthMismatch`; one of the right length
    /// is answered with the letter feedback, wins the round when every
    /// position is marked, and consumes a trial otherwise.
    pub fn submit(&mut self, guess: &Vec<char>) -> (fb: MotusFeedback)
        requires
            old(self).wf(),
            !old(self).won,
        ensures
            final(self).wf(),
            final(self).secret@ == old(self).secret@,
            guess@.len() != old(self).secret@.len() ==> {
                &&& fb is LengthMismatch
                &&& !final(self).won
                &&& final(self).attempts == (if old(self).attempts > 0 {
                    (old(self).attempts - 1) as u32
                } else {
                    0u32
                })
            },
            guess@.len() == old(self).secret@.len() ==> (fb matches MotusFeedback::Marks {
                correct,
                misplaced,
                win,
            } && {
                &&& correct@ == correct_marks(guess@, old(self).secret@)
                &&& misplaced@ == misplaced_list(
                    guess@,
                    old(self).secret@,
                    guess@.len() as int,
                )
                &&& win == win_spec(correct_marks(guess@, old(self).secret@))
                &&& final(self).won == win
                &&& (win ==> final(self).attempts == old(self).attempts)
                &&& (!win ==> final(self).attempts == (if old(self).attempts > 0 {
                    (old(self).attempts - 1) as u32
                } else {
                    0u32
                }))
            }),
    {
        if guess.len() != self.secret.len() {
            if self.attempts > 0 {
                self.attempts = self.attempts - 1;
            }
            MotusFeedback::LengthMismatch
        } else {
            let (correct, misplaced) = compute_feedback(guess, &self.secret);
            let win: bool = is_win(&correct);
            if win {
                self.won = true;
            } else {
                if self.attempts > 0 {
                    self.attempts = self.attempts - 1;
                }
            }
            MotusFeedback::Marks { correct, misplaced, win }
        }
    }

    /// The score of the round so far; meaningful once the word is found.
    pub fn score(&self) -> (s: i32)
        requires
            self.wf(),
        ensures
            s == self.score_spec(),
            0 <= s <= 100,
    {
        if self.won {
            (self.attempts as i32) * 10
        } else {
            0
        }
    }

    /// The one score record emitted for this round.
    pub fn score_record(&self, user_id: i64, username: String) -> (r: ScoreRecord)
        requires
            self.wf(),
        ensures
            r.wf(),
            r.game == GameKind::WordGuess,
            r.user_id == user_id,
            r.username@ == username@,
            r.value == self.score_spec(),
    {
        let value: i32 = self.score();
        ScoreRecord::new(GameKind::WordGuess, user_id, username, value)
    }
}

} // verus!
