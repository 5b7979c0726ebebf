//! The reflex engine: a two-phase stimulus/response timing round. Phase one
//! calibrates over ten trials; phase two scores a response only when the key
//! is correct for the stimulus and the reaction time is within the adaptive
//! threshold derived from the calibration sample. An all-incorrect phase one
//! leaves the sample empty; the threshold then falls back to zero.

use vstd::prelude::*;
use vstd::string::StrSliceExecFns;

verus! {

use crate::store::GameKind;
use crate::store::ScoreRecord;
use crate::text::str_eq;

/// The two phases of a round.
#[derive(Clone, Copy, Debug, PartialEq, Eq, Structural)]
pub enum GamePhase {
    Phase1,
    Phase2,
}

/// What one trial's response is answered with.
#[derive(Clone, Copy, Debug, PartialEq, Eq, Structural)]
pub enum TrialOutcome {
    /// Correct key, and in phase two also within the threshold: one point.
    Scored,
    /// Correct key but slower than the threshold: reported, no point.
    CorrectButSlow,
    /// Wrong key: no point.
    Wrong,
}

/// One observed trial: the stimulus shown, the key pressed, and the
/// measured reaction time in milliseconds.
#[derive(Clone, Debug)]
pub struct TrialEvent {
    pub word: String,
    pub key: char,
    pub time_ms: u32,
}

/// The key is correct for the stimulus: direct mapping for the lowercase
/// words, the opposite key for the uppercase ones.
pub open spec fn correct_key_spec(w: Seq<char>, k: char) -> bool {
    ||| k == 'd' && w == "right"@
    ||| k == 'q' && w == "left"@
    ||| k == 'd' && w == "LEFT"@
    ||| k == 'q' && w == "RIGHT"@
}

/// The scoring state of a round, abstracted from the machine words.
pub struct ReflexState {
    pub score: int,
    pub total: int,
    pub times: Seq<u32>,
}

/// The sum of the observed reaction times of a trial sequence.
pub open spec fn sum_event_times(events: Seq<TrialEvent>) -> int
    decreases events.len(),
{
    if events.len() == 0 {
        0
    } else {
        sum_event_times(events.drop_last()) + events.last().time_ms
    }
}

/// The sum of a calibration sample.
pub open spec fn sum_times(times: Seq<u32>) -> int
    decreases times.len(),
{
    if times.len() == 0 {
        0
    } else {
        sum_times(times.drop_last()) + times.last()
    }
}

/// The phase-two threshold: the integer mean of the calibration sample plus
/// half of itself, and zero when the sample is empty.
pub open spec fn target_spec(times: Seq<u32>) -> int {
    if times.len() == 0 {
        0
    } else {
        (sum_times(times) / (times.len() as int)) + (sum_times(times) / (times.len() as int)) / 2
    }
}

/// One calibration trial: a correct key scores a point and enters the
/// sample; every trial's time counts toward the total elapsed time.
pub open spec fn step1(st: ReflexState, w: Seq<char>, k: char, t: u32) -> ReflexState {
    if correct_key_spec(w, k) {
        ReflexState { score: st.score + 1, total: st.total + t, times: st.times.push(t) }
    } else {
        ReflexState { score: st.score, total: st.total + t, times: st.times }
    }
}

/// One adaptive trial: a point only for a correct key within the threshold.
pub open spec fn step2(st: ReflexState, target: int, w: Seq<char>, k: char, t: u32) -> ReflexState {
    if correct_key_spec(w, k) && t <= target {
        ReflexState { score: st.score + 1, total: st.total + t, times: st.times }
    } else {
        ReflexState { score: st.score, total: st.total + t, times: st.times }
    }
}

/// A whole calibration phase, trial by trial.
pub open spec fn run1_spec(st: ReflexState, events: Seq<TrialEvent>) -> ReflexState
    decreases events.len(),
{
    if events.len() == 0 {
        st
    } else {
        step1(
            run1_spec(st, events.drop_last()),
            events.last().word@,
            events.last().key,
            events.last().time_ms,
        )
    }
}

/// A whole adaptive phase, trial by trial, under a fixed threshold.
pub open spec fn run2_spec(st: ReflexState, target: int, events: Seq<TrialEvent>) -> ReflexState
    decreases events.len(),
{
    if events.len() == 0 {
        st
    } else {
        step2(
            run2_spec(st, target, events.drop_last()),
            target,
            events.last().word@,
            events.last().key,
            events.last().time_ms,
        )
    }
}

/// The observed times of a prefix sum to no more than those of the whole.
proof fn lemma_sum_event_prefix(events: Seq<TrialEvent>, i: int)
    requires
        0 <= i <= events.len(),
    ensures
        sum_event_times(events.subrange(0, i)) <= sum_event_times(events),
    decreases events.len() - i,
{
    if i < events.len() {
        let t = events.subrange(0, i + 1);
        assert(t.drop_last() =~= events.subrange(0, i));
        assert(sum_event_times(t) == sum_event_times(events.subrange(0, i)) + events[i].time_ms);
        lemma_sum_event_prefix(events, i + 1);
    } else {
        assert(events.subrange(0, i) =~= events);
    }
}

/// In the adaptive phase a response scores exactly when both the key is
/// correct for the stimulus and the reaction time is within the threshold.
pub proof fn lemma_phase2_scoring(st: ReflexState, target: int, w: Seq<char>, k: char, t: u32)
    ensures
        (correct_key_spec(w, k) && t <= target) ==> step2(st, target, w, k, t).score == st.score
            + 1,
        !(correct_key_spec(w, k) && t <= target) ==> step2(st, target, w, k, t).score == st.score,
{
}

/// The reflex round state: the stimulus words of the two phases, the score,
/// the total elapsed time, the calibration sample, and the threshold.
pub struct Game {
    pub words_phase1: Vec<&'static str>,
    pub words_phase2: Vec<&'static str>,
    pub score: i32,
    pub total_reaction_time: u64,
    pub phase1_reaction_times: Vec<u32>,
    pub target_reaction_time: u64,
}

impl Game {
    pub open spec fn wf(self) -> bool {
        &&& self.words_phase1@.len() == 2
        &&& self.words_phase1@[0]@ == "left"@
        &&& self.words_phase1@[1]@ == "right"@
        &&& self.words_phase2@.len() == 4
        &&& self.words_phase2@[0]@ == "left"@
        &&& self.words_phase2@[1]@ == "right"@
        &&& self.words_phase2@[2]@ == "LEFT"@
        &&& self.words_phase2@[3]@ == "RIGHT"@
        &&& 0 <= self.score
    }

    /// The scoring state, abstracted from the machine words.
    pub open spec fn model(self) -> ReflexState {
        ReflexState {
            score: self.score as int,
            total: self.total_reaction_time as int,
            times: self.phase1_reaction_times@,
        }
    }

    pub fn new() -> (r: Game)
        ensures
            r.wf(),
            r.score == 0,
            r.total_reaction_time == 0,
            r.phase1_reaction_times@ == Seq::<u32>::empty(),
            r.target_reaction_time == 0,
    {
        let mut w1: Vec<&'static str> = Vec::new();
        w1.push("left");
        w1.push("right");
        let mut w2: Vec<&'static str> = Vec::new();
        w2.push("left");
        w2.push("right");
        w2.push("LEFT");
        w2.push("RIGHT");
        Game {
            words_phase1: w1,
            words_phase2: w2,
            score: 0,
            total_reaction_time: 0,
            phase1_reaction_times: Vec::new(),
            target_reaction_time: 0,
        }
    }

    /// Draws the stimulus word for one trial of the given phase.
    pub fn pick_word(&self, phase: &GamePhase) -> (w: &'static str)
        requires
            self.wf(),
        ensures
            phase is Phase1 ==> (w@ == "left"@ || w@ == "right"@),
            phase is Phase2 ==> (w@ == "left"@ || w@ == "right"@ || w@ == "LEFT"@ || w@
                == "RIGHT"@),
    {
        match phase {
            GamePhase::Phase1 => {
                let i: u64 = crate::rng::random_between(0, 1);
                self.words_phase1[i as usize]
            },
            GamePhase::Phase2 => {
                let i: u64 = crate::rng::random_between(0, 3);
                self.words_phase2[i as usize]
            },
        }
    }

    /// Whether the pressed key is the correct response to the stimulus.
    pub fn is_correct_key(&self, word: &str, key: char) -> (r: bool)
        ensures
            r == correct_key_spec(word@, key),
    {
        match key {
            'd' => str_eq(word, "right") || str_eq(word, "LEFT"),
            'q' => str_eq(word, "left") || str_eq(word, "RIGHT"),
            _ => false,
        }
    }

    /// Computes the phase-two threshold from a calibration sample: the
    /// integer mean plus half of itself, zero for an empty sample.
    pub fn compute_target(times: &Vec<u32>) -> (t: u64)
        ensures
            t == target_spec(times@),
    {
        if times.len() == 0 {
            return 0;
        }
        let n: usize = times.len();
        let mut sum: u128 = 0;
        let mut i: usize = 0;
        while i < n
            invariant
                i <= n,
                n == times@.len(),
                sum == sum_times(times@.subrange(0, i as int)),
                sum <= (i as int) * 0xffff_ffff,
            decreases n - i,
        {
            proof {
                assert(times@.subrange(0, (i + 1) as int).drop_last() =~= times@.subrange(
                    0,
                    i as int,
                ));
            }
            sum = sum + (times[i] as u128);
            i = i + 1;
        }
        proof {
            assert(times@.subrange(0, n as int) =~= times@);
        }
        let len: u128 = n as u128;
        let mean: u128 = sum / len;
        proof {
            assert(mean <= 0xffff_ffff) by (nonlinear_arith)
                requires
                    sum <= (n as int) * 0xffff_ffff,
                    len == n,
                    n > 0,
                    mean == sum / len,
            ;
        }
        let mean64: u64 = mean as u64;
        mean64 + mean64 / 2
    }

    /// Derives and stores the phase-two threshold from the calibration
    /// sample gathered so far; nothing else changes.
    pub fn prepare_phase2(&mut self)
        requires
            old(self).wf(),
        ensures
            final(self).wf(),
            final(self).target_reaction_time == target_spec(old(self).phase1_reaction_times@),
            final(self).model() == old(self).model(),
            final(self).words_phase1@ == old(self).words_phase1@,
            final(self).words_phase2@ == old(self).words_phase2@,
    {
        self.target_reaction_time = Game::compute_target(&self.phase1_reaction_times);
    }

    /// Judges one trial and accounts for it: the score, the calibration
    /// sample (phase one only) and the total elapsed time are updated as the
    /// phase's step rule says.
    pub fn record_trial(&mut self, phase: &GamePhase, word: &str, key: char, time_ms: u32) -> (o:
        TrialOutcome)
        requires
            old(self).wf(),
            old(self).score < i32::MAX,
            old(self).total_reaction_time + time_ms <= u64::MAX,
        ensures
            final(self).wf(),
            final(self).words_phase1@ == old(self).words_phase1@,
            final(self).words_phase2@ == old(self).words_phase2@,
            final(self).target_reaction_time == old(self).target_reaction_time,
            phase is Phase1 ==> {
                &&& final(self).model() == step1(old(self).model(), word@, key, time_ms)
                &&& o == (if correct_key_spec(word@, key) {
                    TrialOutcome::Scored
                } else {
                    TrialOutcome::Wrong
                })
            },
            phase is Phase2 ==> {
                &&& final(self).model() == step2(
                    old(self).model(),
                    old(self).target_reaction_time as int,
                    word@,
                    key,
                    time_ms,
                )
                &&& o == (if !correct_key_spec(word@, key) {
                    TrialOutcome::Wrong
                } else if time_ms <= old(self).target_reaction_time {
                    TrialOutcome::Scored
                } else {
                    TrialOutcome::CorrectButSlow
                })
            },
    {
        let correct: bool = self.is_correct_key(word, key);
        self.total_reaction_time = self.total_reaction_time + (time_ms as u64);
        match phase {
            GamePhase::Phase1 => {
                if correct {
                    self.score = self.score + 1;
                    self.phase1_reaction_times.push(time_ms);
                    TrialOutcome::Scored
                } else {
                    TrialOutcome::Wrong
                }
            },
            GamePhase::Phase2 => {
                if !correct {
                    TrialOutcome::Wrong
                } else if (time_ms as u64) <= self.target_reaction_time {
                    self.score = self.score + 1;
                    TrialOutcome::Scored
                } else {
                    TrialOutcome::CorrectButSlow
                }
            },
        }
    }

    /// Runs one whole phase over the observed trials, in order. Phase two
    /// first derives the threshold from the calibration sample, as its
    /// instructions announce it, and then judges its trials under it.
    pub fn run(&mut self, phase: &GamePhase, events: &Vec<TrialEvent>)
        requires
            old(self).wf(),
            old(self).score + events@.len() <= i32::MAX,
            old(self).total_reaction_time + sum_event_times(events@) <= u64::MAX,
        ensures
            final(self).wf(),
            final(self).words_phase1@ == old(self).words_phase1@,
            final(self).words_phase2@ == old(self).words_phase2@,
            phase is Phase1 ==> {
                &&& final(self).target_reaction_time == old(self).target_reaction_time
                &&& final(self).model() == run1_spec(old(self).model(), events@)
            },
            phase is Phase2 ==> {
                &&& final(self).target_reaction_time == target_spec(
                    old(self).phase1_reaction_times@,
                )
                &&& final(self).model() == run2_spec(
                    old(self).model(),
                    target_spec(old(self).phase1_reaction_times@),
                    events@,
                )
            },
    {
        let is_two: bool = match phase {
            GamePhase::Phase1 => false,
            GamePhase::Phase2 => true,
        };
        if is_two {
            self.prepare_phase2();
        }
        let ghost st0 = self.model();
        let ghost tgt = self.target_reaction_time;
        let mut i: usize = 0;
        while i < events.len()
            invariant
                i <= events@.len(),
                self.wf(),
                self.words_phase1@ == old(self).words_phase1@,
                self.words_phase2@ == old(self).words_phase2@,
                self.target_reaction_time == tgt,
                st0 == old(self).model(),
                !is_two ==> tgt == old(self).target_reaction_time,
                is_two ==> tgt == target_spec(old(self).phase1_reaction_times@),
                (phase is Phase2) == is_two,
                !is_two ==> self.model() == run1_spec(st0, events@.subrange(0, i as int)),
                is_two ==> self.model() == run2_spec(st0, tgt as int, events@.subrange(0, i as int)),
                self.score <= old(self).score + i,
                old(self).score + events@.len() <= i32::MAX,
                self.total_reaction_time == old(self).total_reaction_time + sum_event_times(
                    events@.subrange(0, i as int),
                ),
                old(self).total_reaction_time + sum_event_times(events@) <= u64::MAX,
            decreases events@.len() - i,
        {
            let e: &TrialEvent = &events[i];
            proof {
                let t = events@.subrange(0, (i + 1) as int);
                assert(t.drop_last() =~= events@.subrange(0, i as int));
                assert(t.last() == events@[i as int]);
                lemma_sum_event_prefix(events@, (i + 1) as int);
            }
            self.record_trial(phase, e.word.as_str(), e.key, e.time_ms);
            i = i + 1;
        }
        proof {
            assert(events@.subrange(0, events@.len() as int) =~= events@);
        }
    }

    /// The one score record emitted for this round.
    pub fn score_record(&self, user_id: i64, username: String) -> (r: ScoreRecord)
        requires
            self.wf(),
        ensures
            r.wf(),
            r.game == GameKind::Reflex,
            r.user_id == user_id,
            r.username@ == username@,
            r.value == self.score,
    {
        ScoreRecord::new(GameKind::Reflex, user_id, username, self.score)
    }
}

/// The key taken from one line of input: its first character, or a newline
/// when the line is empty.
pub fn get_key_pressed(input: &str) -> (c: char)
    ensures
        input@.len() == 0 ==> c == '\n',
        input@.len() > 0 ==> c == input@[0],
{
    if input.unicode_len() == 0 {
        '\n'
    } else {
        input.get_char(0)
    }
}

} // verus!
