//! The round state machine: score, counters, countdown, and the active
//! problem, driven by start, answer submission, timer ticks and reset.
//!
//! Each operation's effect is captured by a transition relation
//! (`start_rel`, `tick_rel`, `submit_rel`) that pins every field of the
//! next state, and the operations are proved to realize those relations.
//! The laws at the end state the round's global behaviour: an expired
//! countdown reaches game over, a finished game absorbs every further
//! event until reset, correct and wrong answers move score, counters and
//! clock by exactly their stated amounts, and no event ever decreases
//! score or a counter.

use vstd::prelude::*;
use vstd::string::StringExecFns;
use crate::expr::{int_str, push_i32};
use crate::parse::{parse_input, parse_trimmed_i32};
use crate::problem::{Problem, generate_problem, problem_from_tier};

verus! {

/// The countdown budget of a fresh round, in milliseconds.
pub const START_MS: u64 = 30000;

/// Time granted for a correct answer, in milliseconds.
pub const BONUS_MS: u64 = 1000;

/// Time taken for a wrong or invalid answer, in milliseconds.
pub const PENALTY_MS: u64 = 2000;

/// A whole round of the quiz. `running` and `game_over` encode the three
/// phases: not started (neither), running, and game over; `user_input` is
/// the answer buffer the next submission will consume.
pub struct MathQuizApp {
    pub problem: Problem,
    pub user_input: String,
    pub score: i32,
    pub correct_answers: u32,
    pub wrong_answers: u32,
    pub remaining_ms: u64,
    pub running: bool,
    pub game_over: bool,
    pub feedback: String,
}

pub open spec fn msg_press_start() -> Seq<char> {
    "Press Start to begin!"@
}

pub open spec fn msg_solve() -> Seq<char> {
    "Solve the problems!"@
}

pub open spec fn msg_correct() -> Seq<char> {
    "Correct!"@
}

pub open spec fn msg_invalid() -> Seq<char> {
    "Invalid input. Try again!"@
}

pub open spec fn msg_wrong(answer: int) -> Seq<char> {
    "Wrong! The correct answer was "@ + int_str(answer) + "."@
}

/// Points a correct answer is worth: compound problems score double.
pub open spec fn correct_points(p: Problem) -> int {
    if p.is_pemdas {
        2
    } else {
        1
    }
}

/// The countdown after a wrong answer: the penalty, floored at zero.
pub open spec fn clamped_penalty(ms: u64) -> int {
    if ms >= PENALTY_MS {
        ms - PENALTY_MS
    } else {
        0
    }
}

impl MathQuizApp {
    /// A game-over round is never running, the score is never negative,
    /// and the active problem is well formed.
    pub open spec fn wf(self) -> bool {
        &&& self.problem.wf()
        &&& self.game_over ==> !self.running
        &&& self.score >= 0
    }

    /// A freshly constructed round: everything at its initial value.
    pub open spec fn is_fresh(self) -> bool {
        &&& self.score == 0
        &&& self.correct_answers == 0
        &&& self.wrong_answers == 0
        &&& self.remaining_ms == START_MS
        &&& !self.running
        &&& !self.game_over
        &&& self.user_input@ == Seq::<char>::empty()
        &&& self.feedback@ == msg_press_start()
    }
}

/// Starting is a no-op unless the round has not started yet; then the
/// countdown begins from the untouched remaining time.
pub open spec fn start_rel(pre: MathQuizApp, post: MathQuizApp) -> bool {
    if pre.running || pre.game_over {
        post == pre
    } else {
        &&& post.problem == pre.problem
        &&& post.user_input == pre.user_input
        &&& post.score == pre.score
        &&& post.correct_answers == pre.correct_answers
        &&& post.wrong_answers == pre.wrong_answers
        &&& post.remaining_ms == pre.remaining_ms
        &&& post.running
        &&& !post.game_over
        &&& post.feedback@ == msg_solve()
    }
}

/// A tick is a no-op unless the round is running. Elapsed time at least
/// the remaining budget ends the round, leaving the exhausted value in
/// place; less is subtracted from the budget.
pub open spec fn tick_rel(pre: MathQuizApp, post: MathQuizApp, elapsed_ms: u64) -> bool {
    if !pre.running {
        post == pre
    } else {
        &&& post.problem == pre.problem
        &&& post.user_input == pre.user_input
        &&& post.score == pre.score
        &&& post.correct_answers == pre.correct_answers
        &&& post.wrong_answers == pre.wrong_answers
        &&& post.feedback == pre.feedback
        &&& if elapsed_ms >= pre.remaining_ms {
            &&& post.remaining_ms == pre.remaining_ms
            &&& !post.running
            &&& post.game_over
        } else {
            &&& post.remaining_ms == pre.remaining_ms - elapsed_ms
            &&& post.running
            &&& !post.game_over
        }
    }
}

/// How a submission moves score, counters, countdown and feedback: the
/// buffered text is trimmed and parsed; the exact answer rewards, any
/// other outcome penalizes, an unparsable submission exactly like a wrong
/// number.
pub open spec fn score_step(pre: MathQuizApp, post: MathQuizApp) -> bool {
    match parse_input(pre.user_input@) {
        Some(v) => if v == pre.problem.answer as int {
            &&& post.score == pre.score + correct_points(pre.problem)
            &&& post.correct_answers == pre.correct_answers + 1
            &&& post.wrong_answers == pre.wrong_answers
            &&& post.remaining_ms == pre.remaining_ms + BONUS_MS
            &&& post.feedback@ == msg_correct()
        } else {
            &&& post.score == pre.score
            &&& post.correct_answers == pre.correct_answers
            &&& post.wrong_answers == pre.wrong_answers + 1
            &&& post.remaining_ms == clamped_penalty(pre.remaining_ms)
            &&& post.feedback@ == msg_wrong(pre.problem.answer as int)
        },
        None => {
            &&& post.score == pre.score
            &&& post.correct_answers == pre.correct_answers
            &&& post.wrong_answers == pre.wrong_answers + 1
            &&& post.remaining_ms == clamped_penalty(pre.remaining_ms)
            &&& post.feedback@ == msg_invalid()
        },
    }
}

/// A submission is a no-op unless the round is running; otherwise it
/// scores the buffered text, installs `next` as the active problem and
/// clears the buffer.
pub open spec fn submit_rel(pre: MathQuizApp, post: MathQuizApp, next: Problem) -> bool {
    if !pre.running {
        post == pre
    } else {
        &&& score_step(pre, post)
        &&& post.problem == next
        &&& post.user_input@ == Seq::<char>::empty()
        &&& post.running
        &&& !post.game_over
    }
}

impl MathQuizApp {
    /// A fresh round posing `p`.
    pub fn new_with_problem(p: Problem) -> (s: Self)
        ensures
            s.is_fresh(),
            s.problem == p,
            p.wf() ==> s.wf(),
    {
        MathQuizApp {
            problem: p,
            user_input: String::new(),
            score: 0,
            correct_answers: 0,
            wrong_answers: 0,
            remaining_ms: START_MS,
            running: false,
            game_over: false,
            feedback: String::from_str("Press Start to begin!"),
        }
    }

    /// A fresh round with a problem drawn for score 0.
    pub fn new() -> (s: Self)
        ensures
            s.is_fresh(),
            s.wf(),
            problem_from_tier(s.problem, 0),
    {
        let p = generate_problem(0);
        Self::new_with_problem(p)
    }

    /// Begins the countdown; a no-op unless the round has not started.
    pub fn start(&mut self)
        requires
            old(self).wf(),
        ensures
            final(self).wf(),
            start_rel(*old(self), *final(self)),
    {
        if !self.running && !self.game_over {
            self.running = true;
            self.feedback = String::from_str("Solve the problems!");
        }
    }

    /// Accounts `elapsed_ms` of wall-clock time against the countdown.
    pub fn tick(&mut self, elapsed_ms: u64)
        requires
            old(self).wf(),
        ensures
            final(self).wf(),
            tick_rel(*old(self), *final(self), elapsed_ms),
    {
        if self.running {
            if elapsed_ms >= self.remaining_ms {
                self.game_over = true;
                self.running = false;
            } else {
                self.remaining_ms = self.remaining_ms - elapsed_ms;
            }
        }
    }

    /// The scoring half of a submission: parses the buffer and moves score,
    /// counters, countdown and feedback; the problem and the buffer are
    /// left for the caller.
    fn score_submission(&mut self)
        requires
            old(self).wf(),
            old(self).running,
            old(self).score + 2 <= i32::MAX,
            old(self).remaining_ms + BONUS_MS <= u64::MAX,
            old(self).correct_answers < u32::MAX,
            old(self).wrong_answers < u32::MAX,
        ensures
            final(self).wf(),
            score_step(*old(self), *final(self)),
            final(self).problem == old(self).problem,
            final(self).user_input == old(self).user_input,
            final(self).running,
            !final(self).game_over,
    {
        let parsed = parse_trimmed_i32(self.user_input.as_str());
        match parsed {
            Some(v) => {
                if v == self.problem.answer {
                    self.correct_answers = self.correct_answers + 1;
                    if self.problem.is_pemdas {
                        self.score = self.score + 2;
                    } else {
                        self.score = self.score + 1;
                    }
                    self.remaining_ms = self.remaining_ms + BONUS_MS;
                    self.feedback = String::from_str("Correct!");
                } else {
                    self.wrong_answers = self.wrong_answers + 1;
                    self.remaining_ms = if self.remaining_ms >= PENALTY_MS {
                        self.remaining_ms - PENALTY_MS
                    } else {
                        0
                    };
                    let mut msg = String::from_str("Wrong! The correct answer was ");
                    push_i32(&mut msg, self.problem.answer);
                    msg.append(".");
                    assert(msg@ =~= msg_wrong(self.problem.answer as int));
                    self.feedback = msg;
                }
            },
            None => {
                self.wrong_answers = self.wrong_answers + 1;
                self.remaining_ms = if self.remaining_ms >= PENALTY_MS {
                    self.remaining_ms - PENALTY_MS
                } else {
                    0
                };
                self.feedback = String::from_str("Invalid input. Try again!");
            },
        }
    }

    /// Submits the buffered answer and installs `next` as the new problem.
    /// This is the whole submission except the drawing of the next
    /// problem, so a caller with a fixed draw gets an exact outcome.
    pub fn process_input_with(&mut self, next: Problem)
        requires
            old(self).wf(),
            next.wf(),
            old(self).score + 2 <= i32::MAX,
            old(self).remaining_ms + BONUS_MS <= u64::MAX,
            old(self).correct_answers < u32::MAX,
            old(self).wrong_answers < u32::MAX,
        ensures
            final(self).wf(),
            submit_rel(*old(self), *final(self), next),
    {
        if !self.running {
            return ;
        }
        self.score_submission();
        self.problem = next;
        self.user_input = String::new();
    }

    /// Submits the buffered answer: scores it, draws the next problem for
    /// the updated score, and clears the buffer. A no-op unless the round
    /// is running.
    pub fn process_input(&mut self)
        requires
            old(self).wf(),
            old(self).score + 2 <= i32::MAX,
            old(self).remaining_ms + BONUS_MS <= u64::MAX,
            old(self).correct_answers < u32::MAX,
            old(self).wrong_answers < u32::MAX,
        ensures
            final(self).wf(),
            submit_rel(*old(self), *final(self), final(self).problem),
            old(self).running ==> problem_from_tier(
                final(self).problem,
                final(self).score as int,
            ),
    {
        if !self.running {
            return ;
        }
        self.score_submission();
        let next = generate_problem(self.score);
        self.problem = next;
        self.user_input = String::new();
    }

    /// Discards the whole round and starts from scratch, with a problem
    /// drawn for score 0. Valid in every state.
    pub fn reset(&mut self)
        ensures
            final(self).is_fresh(),
            final(self).wf(),
            problem_from_tier(final(self).problem, 0),
    {
        *self = Self::new();
    }
}

/// A tick whose elapsed time reaches the remaining budget ends the round.
pub proof fn lemma_expiry_reaches_game_over(pre: MathQuizApp, post: MathQuizApp, elapsed_ms: u64)
    requires
        pre.running,
        elapsed_ms >= pre.remaining_ms,
        tick_rel(pre, post, elapsed_ms),
    ensures
        post.game_over,
        !post.running,
        post.remaining_ms == pre.remaining_ms,
{
}

/// Once the round is over, ticks, submissions and starts all leave the
/// state untouched; only a reset leaves game over.
pub proof fn lemma_game_over_is_stable(
    s: MathQuizApp,
    t: MathQuizApp,
    elapsed_ms: u64,
    next: Problem,
)
    requires
        s.wf(),
        s.game_over,
    ensures
        tick_rel(s, t, elapsed_ms) ==> t == s,
        submit_rel(s, t, next) ==> t == s,
        start_rel(s, t) ==> t == s,
{
}

/// Submitting the exact answer raises the score by 1, or 2 for a compound
/// problem, counts one correct answer, and grants the time bonus.
pub proof fn lemma_correct_answer_rewards(pre: MathQuizApp, post: MathQuizApp, next: Problem)
    requires
        pre.running,
        submit_rel(pre, post, next),
        parse_input(pre.user_input@) == Some(pre.problem.answer as int),
    ensures
        post.score == pre.score + correct_points(pre.problem),
        post.correct_answers == pre.correct_answers + 1,
        post.wrong_answers == pre.wrong_answers,
        post.remaining_ms == pre.remaining_ms + BONUS_MS,
{
}

/// Submitting a wrong number or unparsable text counts one wrong answer
/// and takes the time penalty, floored at zero; the score is untouched.
pub proof fn lemma_wrong_answer_penalizes(pre: MathQuizApp, post: MathQuizApp, next: Problem)
    requires
        pre.running,
        submit_rel(pre, post, next),
        parse_input(pre.user_input@) != Some(pre.problem.answer as int),
    ensures
        post.wrong_answers == pre.wrong_answers + 1,
        post.correct_answers == pre.correct_answers,
        post.score == pre.score,
        post.remaining_ms == clamped_penalty(pre.remaining_ms),
        pre.remaining_ms < PENALTY_MS ==> post.remaining_ms == 0,
{
}

/// No transition ever lowers the score or either counter.
pub proof fn lemma_progress_is_monotone(
    pre: MathQuizApp,
    post: MathQuizApp,
    elapsed_ms: u64,
    next: Problem,
)
    ensures
        start_rel(pre, post) ==> post.score == pre.score && post.correct_answers
            == pre.correct_answers && post.wrong_answers == pre.wrong_answers,
        tick_rel(pre, post, elapsed_ms) ==> post.score == pre.score && post.correct_answers
            == pre.correct_answers && post.wrong_answers == pre.wrong_answers,
        submit_rel(pre, post, next) ==> post.score >= pre.score && post.correct_answers
            >= pre.correct_answers && post.wrong_answers >= pre.wrong_answers,
{
}

} // verus!
