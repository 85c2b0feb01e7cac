use vstd::prelude::*;

use crate::direction::Direction;
use crate::errors::QuizError;
use crate::events::SessionEvent;
use crate::pair::{Pair, PairView, answer_spec, question_spec};
use crate::pool::{QuestionPool, all_distinct, views_of};
use crate::rng::QuizRng;

verus! {

/// The auto-advance delay after an answer, in milliseconds of the host's
/// monotonic clock.
pub const LOCK_DELAY_MILLIS: u64 = 1000;

/// Whether the feedback delay has fully elapsed between `start` and `now`.
/// A tick landing exactly on the boundary advances.
pub open spec fn delay_elapsed(start: u64, now: u64) -> bool {
    now >= start + LOCK_DELAY_MILLIS
}

/// Whether the engine is waiting for an answer or showing feedback.
#[derive(Clone, Copy, Debug, PartialEq, Eq, Structural)]
pub enum SessionState {
    /// Input is accepted; no answer has been taken for this question.
    AwaitingAnswer,
    /// An answer was taken: which choice, and whether it was right. Further
    /// input is ignored until the session restarts.
    Locked { answered: usize, correct: bool },
}

/// How one choice should be rendered by the host.
#[derive(Clone, Copy, Debug, PartialEq, Eq, Structural)]
pub enum Highlight {
    /// No feedback to show.
    Neutral,
    /// The pointer rests on the choice. The engine never produces this
    /// value; it exists for the host's own hover feedback.
    Hovered,
    /// This choice was submitted and was right.
    PressedCorrect,
    /// This choice was submitted and was wrong.
    PressedWrong,
    /// This choice carries the right answer the user missed.
    MarkedAsCorrectAnswer,
}

/// The per-run state of the quiz: the corpus, the working pool, the current
/// question, the active direction, and the lock window that follows every
/// answer.
pub struct QuizSession {
    corpus: Vec<Pair>,
    pool: QuestionPool,
    pool_size: usize,
    current: Pair,
    direction: Direction,
    state: SessionState,
    lock_started_at: Option<u64>,
    rng: QuizRng,
}

impl QuizSession {
    /// The corpus, as the sequence of pair values it was built from.
    pub closed spec fn corpus_view(self) -> Seq<PairView> {
        views_of(self.corpus@)
    }

    /// The working pool, as a sequence of pair values.
    pub closed spec fn pool_view(self) -> Seq<PairView> {
        self.pool@
    }

    /// The pool size the session was built with and reroll keeps.
    pub closed spec fn pool_size_spec(self) -> int {
        self.pool_size as int
    }

    /// The pair currently asked.
    pub closed spec fn current_view(self) -> PairView {
        self.current@
    }

    /// The active translation direction.
    pub closed spec fn direction_spec(self) -> Direction {
        self.direction
    }

    /// Whether the session is awaiting an answer or locked.
    pub closed spec fn state_spec(self) -> SessionState {
        self.state
    }

    /// When the lock window opened, if it is open.
    pub closed spec fn lock_time_spec(self) -> Option<u64> {
        self.lock_started_at
    }

    /// The text that currently counts as the right answer.
    pub open spec fn correct_answer(self) -> Seq<char> {
        answer_spec(self.current_view(), self.direction_spec())
    }

    /// Whether `(id, text)` names pool member `id` by its answer-side text.
    pub open spec fn names_choice(self, id: int, text: Seq<char>) -> bool {
        &&& 0 <= id < self.pool_view().len()
        &&& text == answer_spec(self.pool_view()[id], self.direction_spec())
    }

    /// The pool part of the session invariant: a duplicate-free corpus, and
    /// a pool of the configured size whose members are distinct pairs of the
    /// corpus.
    pub open spec fn pool_wf(self) -> bool {
        &&& all_distinct(self.corpus_view())
        &&& 1 <= self.pool_size_spec() <= self.corpus_view().len()
        &&& self.pool_view().len() == self.pool_size_spec()
        &&& all_distinct(self.pool_view())
        &&& forall|k: int|
            0 <= k < self.pool_view().len() ==> self.corpus_view().contains(
                #[trigger] self.pool_view()[k],
            )
    }

    /// The full session invariant: on top of [`QuizSession::pool_wf`], the
    /// current question is a pool member, a locked answer names a pool
    /// member, and the lock timestamp is present exactly while locked.
    pub open spec fn wf(self) -> bool {
        &&& self.pool_wf()
        &&& self.pool_view().contains(self.current_view())
        &&& (self.state_spec() matches SessionState::Locked { answered, .. } ==> answered
            < self.pool_view().len())
        &&& (self.state_spec() is Locked <==> self.lock_time_spec() is Some)
    }
}

/// What a restart guarantees: corpus, pool, sizing and direction are kept;
/// the session is unlocked on a fresh pool member which differs from the
/// previous question whenever the pool has at least two members.
pub open spec fn restarted_from(post: QuizSession, pre: QuizSession) -> bool {
    &&& post.corpus_view() == pre.corpus_view()
    &&& post.pool_view() == pre.pool_view()
    &&& post.pool_size_spec() == pre.pool_size_spec()
    &&& post.direction_spec() == pre.direction_spec()
    &&& post.state_spec() == SessionState::AwaitingAnswer
    &&& post.lock_time_spec() is None
    &&& post.pool_view().contains(post.current_view())
    &&& (pre.pool_view().len() >= 2 ==> post.current_view() != pre.current_view())
    &&& (pre.pool_view().len() == 1 ==> post.current_view() == pre.pool_view()[0])
}

/// Everything `submit_answer` promises: a silent no-op while locked, a
/// refused unknown choice, or the transition into the lock window with the
/// submitted text judged against the current question.
pub open spec fn submit_outcome(
    pre: QuizSession,
    post: QuizSession,
    r: Result<(), QuizError>,
    id: usize,
    text: Seq<char>,
    now: u64,
) -> bool {
    &&& (pre.state_spec() is Locked ==> r is Ok && post == pre)
    &&& (pre.state_spec() is AwaitingAnswer && !pre.names_choice(id as int, text) ==> r == Err::<
        (),
        QuizError,
    >(QuizError::NoMatchingChoice) && post == pre)
    &&& (pre.state_spec() is AwaitingAnswer && pre.names_choice(id as int, text) ==> {
        &&& r is Ok
        &&& post.state_spec() == (SessionState::Locked {
            answered: id,
            correct: text == pre.correct_answer(),
        })
        &&& post.lock_time_spec() == Some(now)
        &&& post.corpus_view() == pre.corpus_view()
        &&& post.pool_view() == pre.pool_view()
        &&& post.pool_size_spec() == pre.pool_size_spec()
        &&& post.current_view() == pre.current_view()
        &&& post.direction_spec() == pre.direction_spec()
    })
}

/// Everything `tick` promises: nothing changes while awaiting an answer or
/// while the delay has not elapsed; once it has, the session restarts.
pub open spec fn tick_outcome(pre: QuizSession, post: QuizSession, now: u64) -> bool {
    &&& (pre.state_spec() is AwaitingAnswer ==> post == pre)
    &&& (pre.state_spec() is Locked && !delay_elapsed(pre.lock_time_spec()->Some_0, now) ==> post
        == pre)
    &&& (pre.state_spec() is Locked && delay_elapsed(pre.lock_time_spec()->Some_0, now)
        ==> restarted_from(post, pre))
}

/// Ticks below the delay threshold compose to nothing: however often the
/// host repeats them, a locked session stays exactly as it was.
pub proof fn lemma_early_ticks_change_nothing(
    pre: QuizSession,
    mid: QuizSession,
    post: QuizSession,
    now1: u64,
    now2: u64,
)
    requires
        pre.state_spec() is Locked,
        !delay_elapsed(pre.lock_time_spec()->Some_0, now1),
        !delay_elapsed(pre.lock_time_spec()->Some_0, now2),
        tick_outcome(pre, mid, now1),
        tick_outcome(mid, post, now2),
    ensures
        post == pre,
{
}

/// Everything `switch_direction` promises: the direction is toggled and
/// the session restarts — corpus, pool and sizing are kept; input reopens
/// on a fresh pool member, different from the previous question whenever
/// the pool has at least two members.
pub open spec fn switch_outcome(pre: QuizSession, post: QuizSession) -> bool {
    &&& post.direction_spec() == pre.direction_spec().toggle_spec()
    &&& post.corpus_view() == pre.corpus_view()
    &&& post.pool_view() == pre.pool_view()
    &&& post.pool_size_spec() == pre.pool_size_spec()
    &&& post.state_spec() == SessionState::AwaitingAnswer
    &&& post.lock_time_spec() is None
    &&& post.pool_view().contains(post.current_view())
    &&& (pre.pool_view().len() >= 2 ==> post.current_view() != pre.current_view())
    &&& (pre.pool_view().len() == 1 ==> post.current_view() == pre.pool_view()[0])
}

/// Everything `reroll` promises: the corpus, sizing and direction are kept;
/// the pool is replaced by a fresh draw from the corpus of the configured
/// size; the session is unlocked on a member of the new pool, different
/// from the previous question whenever the new pool has at least two
/// members.
pub open spec fn reroll_outcome(pre: QuizSession, post: QuizSession) -> bool {
    &&& post.corpus_view() == pre.corpus_view()
    &&& post.pool_size_spec() == pre.pool_size_spec()
    &&& post.direction_spec() == pre.direction_spec()
    &&& post.pool_view().len() == pre.pool_size_spec()
    &&& forall|k: int|
        0 <= k < post.pool_view().len() ==> post.corpus_view().contains(
            #[trigger] post.pool_view()[k],
        )
    &&& post.state_spec() == SessionState::AwaitingAnswer
    &&& post.lock_time_spec() is None
    &&& post.pool_view().contains(post.current_view())
    &&& (pre.pool_size_spec() >= 2 ==> post.current_view() != pre.current_view())
}

impl QuizSession {
    /// Starts a session: draws a working pool of `pool_size` distinct pairs
    /// from `corpus`, picks a first question from it, and awaits an answer
    /// in the source-to-target direction. The corpus must be duplicate-free
    /// and a session always holds a question, hence the preconditions; a
    /// pool larger than the corpus is refused with `InsufficientCorpus`.
    pub fn new(corpus: Vec<Pair>, pool_size: usize, seed: u64) -> (r: Result<
        QuizSession,
        QuizError,
    >)
        requires
            all_distinct(views_of(corpus@)),
            1 <= pool_size,
        ensures
            pool_size > corpus@.len() <==> r is Err,
            r is Err ==> r == Err::<QuizSession, QuizError>(QuizError::InsufficientCorpus),
            r matches Ok(s) ==> {
                &&& s.wf()
                &&& s.corpus_view() == views_of(corpus@)
                &&& s.pool_size_spec() == pool_size
                &&& s.direction_spec() == Direction::SourceToTarget
                &&& s.state_spec() == SessionState::AwaitingAnswer
                &&& s.lock_time_spec() is None
            },
    {
        let mut rng = QuizRng::new(seed);
        let pool = match QuestionPool::sample(&corpus, pool_size, &mut rng) {
            Ok(p) => p,
            Err(e) => {
                return Err(e);
            },
        };
        let current = pool.pick_excluding(None, &mut rng);
        Ok(
            QuizSession {
                corpus,
                pool,
                pool_size,
                current,
                direction: Direction::SourceToTarget,
                state: SessionState::AwaitingAnswer,
                lock_started_at: None,
                rng,
            },
        )
    }

    /// Picks a fresh question, avoiding the previous one when possible, and
    /// reopens input. The pool may just have been replaced, so only the
    /// pool part of the invariant is required.
    fn restart(&mut self)
        requires
            old(self).pool_wf(),
        ensures
            final(self).wf(),
            restarted_from(*final(self), *old(self)),
    {
        let next = self.pool.pick_excluding(Some(&self.current), &mut self.rng);
        self.current = next;
        self.state = SessionState::AwaitingAnswer;
        self.lock_started_at = None;
    }

    /// Takes a submitted choice. While locked this is a silent no-op: extra
    /// clicks during the feedback window are dropped, and a second submit
    /// queued in the same tick finds the session already locked. A choice
    /// that names no pool member is refused and changes nothing. Otherwise
    /// the submitted text is judged against the current question's answer
    /// side and the session locks at `now`.
    pub fn submit_answer(&mut self, candidate_id: usize, candidate_text: &str, now: u64) -> (r:
        Result<(), QuizError>)
        requires
            old(self).wf(),
        ensures
            final(self).wf(),
            submit_outcome(
                *old(self),
                *final(self),
                r,
                candidate_id,
                candidate_text@,
                now,
            ),
    {
        match self.state {
            SessionState::Locked { .. } => Ok(()),
            SessionState::AwaitingAnswer => {
                if candidate_id >= self.pool.len() {
                    return Err(QuizError::NoMatchingChoice);
                }
                let choice_text = self.pool.member(candidate_id).answer(self.direction);
                let cand: String = candidate_text.to_owned();
                if !(cand == choice_text) {
                    return Err(QuizError::NoMatchingChoice);
                }
                let correct_text = self.current.answer(self.direction);
                let correct = cand == correct_text;
                self.state = SessionState::Locked { answered: candidate_id, correct };
                self.lock_started_at = Some(now);
                Ok(())
            },
        }
    }

    /// Advances time. In the lock window, once the delay has elapsed the
    /// session restarts on a fresh question; every earlier tick changes
    /// nothing, however often it is repeated.
    pub fn tick(&mut self, now: u64)
        requires
            old(self).wf(),
        ensures
            final(self).wf(),
            tick_outcome(*old(self), *final(self), now),
    {
        match self.lock_started_at {
            None => {},
            Some(start) => {
                if now >= start && now - start >= LOCK_DELAY_MILLIS {
                    self.restart();
                }
            },
        }
    }

    /// Toggles the translation direction and restarts on a fresh question,
    /// valid in any state.
    pub fn switch_direction(&mut self)
        requires
            old(self).wf(),
        ensures
            final(self).wf(),
            switch_outcome(*old(self), *final(self)),
    {
        self.direction = self.direction.toggle();
        self.restart();
    }

    /// Replaces the working pool with a fresh draw from the corpus and
    /// restarts, valid in any state. The invariant puts the configured pool
    /// size within the corpus, so the draw cannot be refused.
    pub fn reroll(&mut self)
        requires
            old(self).wf(),
        ensures
            final(self).wf(),
            reroll_outcome(*old(self), *final(self)),
    {
        let r = self.pool.reroll(&self.corpus, self.pool_size, &mut self.rng);
        match r {
            Ok(()) => {
                self.restart();
            },
            Err(_) => {
                proof {
                    assert(old(self).corpus_view().len() == old(self).corpus@.len());
                    assert(false);
                }
            },
        }
    }

    /// How choice `i` should be rendered right now.
    pub open spec fn highlight_spec(self, i: int) -> Highlight {
        match self.state_spec() {
            SessionState::AwaitingAnswer => Highlight::Neutral,
            SessionState::Locked { answered, correct } => if i == answered {
                if correct {
                    Highlight::PressedCorrect
                } else {
                    Highlight::PressedWrong
                }
            } else if !correct && answer_spec(self.pool_view()[i], self.direction_spec())
                == self.correct_answer() {
                Highlight::MarkedAsCorrectAnswer
            } else {
                Highlight::Neutral
            },
        }
    }

    /// The prompt text of the current question under the active direction.
    pub fn question_text(&self) -> (r: String)
        ensures
            r@ == question_spec(self.current_view(), self.direction_spec()),
    {
        self.current.question(self.direction)
    }

    /// The pair currently asked.
    pub fn current_question(&self) -> (r: &Pair)
        ensures
            r@ == self.current_view(),
    {
        &self.current
    }

    /// The active translation direction.
    pub fn direction(&self) -> (r: Direction)
        ensures
            r == self.direction_spec(),
    {
        self.direction
    }

    /// Whether the engine is awaiting an answer or locked.
    pub fn state(&self) -> (r: SessionState)
        ensures
            r == self.state_spec(),
    {
        self.state
    }

    /// When the lock window opened, if it is open.
    pub fn lock_time(&self) -> (r: Option<u64>)
        ensures
            r == self.lock_time_spec(),
    {
        self.lock_started_at
    }

    /// Whether the host should forward clicks to the engine.
    pub fn input_accepted(&self) -> (r: bool)
        ensures
            r == (self.state_spec() is AwaitingAnswer),
    {
        match self.state {
            SessionState::AwaitingAnswer => true,
            SessionState::Locked { .. } => false,
        }
    }

    /// How many choices the host lays out: one per pool member.
    pub fn choice_count(&self) -> (n: usize)
        ensures
            n == self.pool_view().len(),
    {
        self.pool.len()
    }

    /// The answer-side text of pool member `i` under the active direction:
    /// what the host shows on choice `i`.
    pub fn choice_text(&self, i: usize) -> (r: String)
        requires
            i < self.pool_view().len(),
        ensures
            r@ == answer_spec(self.pool_view()[i as int], self.direction_spec()),
    {
        self.pool.member(i).answer(self.direction)
    }

    /// How the host should render choice `i` right now.
    pub fn highlight_of(&self, i: usize) -> (r: Highlight)
        requires
            i < self.pool_view().len(),
        ensures
            r == self.highlight_spec(i as int),
    {
        match self.state {
            SessionState::AwaitingAnswer => Highlight::Neutral,
            SessionState::Locked { answered, correct } => {
                if i == answered {
                    if correct {
                        Highlight::PressedCorrect
                    } else {
                        Highlight::PressedWrong
                    }
                } else {
                    let choice = self.pool.member(i).answer(self.direction);
                    let correct_text = self.current.answer(self.direction);
                    if !correct && choice == correct_text {
                        Highlight::MarkedAsCorrectAnswer
                    } else {
                        Highlight::Neutral
                    }
                }
            },
        }
    }

    /// Feeds one host signal to the engine, with the host's clock reading.
    /// Non-answer signals always succeed.
    pub fn handle_event(&mut self, event: &SessionEvent, now: u64) -> (r: Result<(), QuizError>)
        requires
            old(self).wf(),
        ensures
            final(self).wf(),
            event matches SessionEvent::AnswerSubmitted { choice, ref text } ==> submit_outcome(
                *old(self),
                *final(self),
                r,
                *choice,
                text@,
                now,
            ),
            event is Tick ==> r is Ok && tick_outcome(*old(self), *final(self), now),
            event is DirectionSwitchRequested ==> r is Ok && switch_outcome(
                *old(self),
                *final(self),
            ),
            event is RerollRequested ==> r is Ok && reroll_outcome(*old(self), *final(self)),
    {
        match event {
            SessionEvent::AnswerSubmitted { choice, text } => {
                self.submit_answer(*choice, text.as_str(), now)
            },
            SessionEvent::RerollRequested => {
                self.reroll();
                Ok(())
            },
            SessionEvent::DirectionSwitchRequested => {
                self.switch_direction();
                Ok(())
            },
            SessionEvent::Tick => {
                self.tick(now);
                Ok(())
            },
        }
    }
}

} // verus!
