use quiz_session::{
    Direction, Highlight, Pair, QuestionPool, QuizError, QuizRng, QuizSession, SessionEvent,
    SessionState, is_correct,
};

fn pair(source: &str, target: &str) -> Pair {
    Pair::new(source.to_owned(), target.to_owned())
}

fn letters() -> Vec<Pair> {
    vec![
        pair("ක", "ka"),
        pair("බ", "ba"),
        pair("ග", "ga"),
        pair("ත", "ta"),
        pair("ම", "ma"),
    ]
}

fn two_letter_corpus() -> Vec<Pair> {
    vec![pair("ක", "ka"), pair("බ", "ba")]
}

/// A session over the two-letter corpus whose current question has the given
/// source-side text. Seeds are tried until the draw lands on it.
fn session_with_current(source: &str) -> QuizSession {
    for seed in 0..1000 {
        let s = QuizSession::new(two_letter_corpus(), 2, seed).unwrap();
        if s.question_text() == source {
            return s;
        }
    }
    panic!("no seed produced the wanted current question");
}

fn choice_with_text(s: &QuizSession, text: &str) -> usize {
    for i in 0..s.choice_count() {
        if s.choice_text(i) == text {
            return i;
        }
    }
    panic!("no choice shows the wanted text");
}

#[test]
fn direction_toggle_roundtrip() {
    assert_eq!(Direction::SourceToTarget.toggle(), Direction::TargetToSource);
    assert_eq!(Direction::TargetToSource.toggle(), Direction::SourceToTarget);
    assert_eq!(Direction::SourceToTarget.toggle().toggle(), Direction::SourceToTarget);
    assert_eq!(Direction::TargetToSource.toggle().toggle(), Direction::TargetToSource);
}

#[test]
fn question_of_one_direction_is_answer_of_the_other() {
    let p = pair("ක", "ka");
    for d in [Direction::SourceToTarget, Direction::TargetToSource] {
        assert_eq!(p.question(d), p.answer(d.toggle()));
        assert_eq!(p.answer(d), p.question(d.toggle()));
    }
    assert_eq!(p.question(Direction::SourceToTarget), "ක");
    assert_eq!(p.answer(Direction::SourceToTarget), "ka");
}

#[test]
fn sample_returns_distinct_members_of_the_corpus() {
    let corpus = letters();
    for seed in 0..50 {
        let mut rng = QuizRng::new(seed);
        let pool = QuestionPool::sample(&corpus, 3, &mut rng).unwrap();
        assert_eq!(pool.len(), 3);
        let mut seen: Vec<(String, String)> = Vec::new();
        for i in 0..pool.len() {
            let m = pool.member(i);
            let key = (
                m.question(Direction::SourceToTarget),
                m.answer(Direction::SourceToTarget),
            );
            assert!(
                corpus.iter().any(|c| c.question(Direction::SourceToTarget) == key.0
                    && c.answer(Direction::SourceToTarget) == key.1),
                "pool member not drawn from the corpus"
            );
            assert!(!seen.contains(&key), "pool member repeated");
            seen.push(key);
        }
    }
}

#[test]
fn sample_of_the_whole_corpus_is_a_permutation() {
    let corpus = letters();
    let mut rng = QuizRng::new(11);
    let pool = QuestionPool::sample(&corpus, corpus.len(), &mut rng).unwrap();
    assert_eq!(pool.len(), corpus.len());
    for c in &corpus {
        let text = c.question(Direction::SourceToTarget);
        let mut found = false;
        for i in 0..pool.len() {
            if pool.member(i).question(Direction::SourceToTarget) == text {
                found = true;
            }
        }
        assert!(found, "corpus member missing from a full-size sample");
    }
}

#[test]
fn sample_varies_with_the_seed() {
    let corpus = letters();
    let mut first_members: Vec<String> = Vec::new();
    for seed in 0..50 {
        let mut rng = QuizRng::new(seed);
        let pool = QuestionPool::sample(&corpus, 1, &mut rng).unwrap();
        first_members.push(pool.member(0).question(Direction::SourceToTarget));
    }
    let witness = &first_members[0];
    assert!(
        first_members.iter().any(|m| m != witness),
        "every seed drew the same member"
    );
}

#[test]
fn sample_with_oversized_pool_is_refused() {
    let corpus = letters();
    let mut rng = QuizRng::new(1);
    for size in [6, 7, 100] {
        let r = QuestionPool::sample(&corpus, size, &mut rng);
        assert!(matches!(r, Err(QuizError::InsufficientCorpus)));
    }
    let ok = QuestionPool::sample(&corpus, 5, &mut rng);
    assert!(ok.is_ok());
}

#[test]
fn sample_of_nothing_is_empty() {
    let mut rng = QuizRng::new(0);
    let empty: Vec<Pair> = Vec::new();
    let pool = QuestionPool::sample(&empty, 0, &mut rng).unwrap();
    assert_eq!(pool.len(), 0);
    let refused = QuestionPool::sample(&empty, 1, &mut rng);
    assert!(matches!(refused, Err(QuizError::InsufficientCorpus)));
}

#[test]
fn session_over_an_empty_corpus_is_refused() {
    let r = QuizSession::new(Vec::new(), 1, 0);
    assert!(matches!(r, Err(QuizError::InsufficientCorpus)));
}

#[test]
fn session_with_oversized_pool_is_refused() {
    let r = QuizSession::new(letters(), 6, 3);
    assert!(matches!(r, Err(QuizError::InsufficientCorpus)));
}

#[test]
fn pick_excluding_never_repeats_the_current_question() {
    let corpus = letters();
    for seed in 0..100 {
        let mut rng = QuizRng::new(seed);
        let pool = QuestionPool::sample(&corpus, corpus.len(), &mut rng).unwrap();
        let current = pool.member(0).clone();
        let picked = pool.pick_excluding(Some(&current), &mut rng);
        assert_ne!(
            picked.question(Direction::SourceToTarget),
            current.question(Direction::SourceToTarget),
            "the fresh pick repeated the current question"
        );
    }
}

#[test]
fn pick_excluding_on_a_single_member_pool_returns_it() {
    let corpus = vec![pair("ක", "ka")];
    let mut rng = QuizRng::new(9);
    let pool = QuestionPool::sample(&corpus, 1, &mut rng).unwrap();
    let only = pool.member(0).clone();
    let picked = pool.pick_excluding(Some(&only), &mut rng);
    assert_eq!(picked.question(Direction::SourceToTarget), "ක");
}

#[test]
fn reroll_replaces_the_pool_from_the_corpus() {
    let corpus = letters();
    let mut rng = QuizRng::new(5);
    let mut pool = QuestionPool::sample(&corpus, 3, &mut rng).unwrap();
    pool.reroll(&corpus, 3, &mut rng).unwrap();
    assert_eq!(pool.len(), 3);
    for i in 0..pool.len() {
        let text = pool.member(i).question(Direction::SourceToTarget);
        assert!(corpus.iter().any(|c| c.question(Direction::SourceToTarget) == text));
    }
    let refused = pool.reroll(&corpus, 6, &mut rng);
    assert!(matches!(refused, Err(QuizError::InsufficientCorpus)));
    assert_eq!(pool.len(), 3, "a refused reroll must leave the pool unchanged");
}

#[test]
fn is_correct_compares_exactly() {
    let p = pair("ක", "ka");
    assert!(is_correct("ka", &p, Direction::SourceToTarget));
    assert!(!is_correct("Ka", &p, Direction::SourceToTarget));
    assert!(!is_correct("ka ", &p, Direction::SourceToTarget));
    assert!(!is_correct("ka", &p, Direction::TargetToSource));
    assert!(is_correct("ක", &p, Direction::TargetToSource));
}

#[test]
fn correct_answer_locks_and_advances_to_the_other_pair() {
    let mut s = session_with_current("ක");
    let ka = choice_with_text(&s, "ka");
    let ba = choice_with_text(&s, "ba");
    assert!(s.input_accepted());

    s.submit_answer(ka, "ka", 100).unwrap();
    assert_eq!(s.state(), SessionState::Locked { answered: ka, correct: true });
    assert!(!s.input_accepted());
    assert_eq!(s.highlight_of(ka), Highlight::PressedCorrect);
    assert_eq!(s.highlight_of(ba), Highlight::Neutral);
    assert_eq!(s.lock_time(), Some(100));

    s.tick(1100);
    assert_eq!(s.state(), SessionState::AwaitingAnswer);
    assert_eq!(s.lock_time(), None);
    assert_eq!(
        s.question_text(),
        "බ",
        "the only remaining distinct option must come up next"
    );
    assert_eq!(s.highlight_of(ka), Highlight::Neutral);
    assert_eq!(s.highlight_of(ba), Highlight::Neutral);
}

#[test]
fn wrong_answer_marks_the_right_choice() {
    let mut s = session_with_current("ක");
    let ka = choice_with_text(&s, "ka");
    let ba = choice_with_text(&s, "ba");

    s.submit_answer(ba, "ba", 40).unwrap();
    assert_eq!(s.state(), SessionState::Locked { answered: ba, correct: false });
    assert_eq!(s.highlight_of(ba), Highlight::PressedWrong);
    assert_eq!(s.highlight_of(ka), Highlight::MarkedAsCorrectAnswer);
}

#[test]
fn second_submission_in_the_same_tick_is_dropped() {
    let mut s = session_with_current("ක");
    let ka = choice_with_text(&s, "ka");
    let ba = choice_with_text(&s, "ba");

    s.submit_answer(ka, "ka", 10).unwrap();
    let second = s.submit_answer(ba, "ba", 10);
    assert!(second.is_ok(), "extra input during the lock window is a silent no-op");
    assert_eq!(
        s.state(),
        SessionState::Locked { answered: ka, correct: true },
        "only the first submission of a tick may be honored"
    );
    assert_eq!(s.lock_time(), Some(10));
}

#[test]
fn switching_direction_shows_the_other_side() {
    let mut s = QuizSession::new(vec![pair("ක", "ka")], 1, 0).unwrap();
    assert_eq!(s.direction(), Direction::SourceToTarget);
    assert_eq!(s.question_text(), "ක");

    s.switch_direction();
    assert_eq!(s.direction(), Direction::TargetToSource);
    assert_eq!(s.state(), SessionState::AwaitingAnswer);
    assert_eq!(s.question_text(), "ka");
}

#[test]
fn switching_direction_while_locked_unlocks_and_restarts() {
    let mut s = session_with_current("ක");
    let ka = choice_with_text(&s, "ka");
    s.submit_answer(ka, "ka", 10).unwrap();
    assert!(!s.input_accepted());

    s.switch_direction();
    assert_eq!(s.direction(), Direction::TargetToSource);
    assert_eq!(s.state(), SessionState::AwaitingAnswer);
    assert_eq!(s.lock_time(), None);
    assert_eq!(
        s.question_text(),
        "ba",
        "a direction switch forces a fresh question, shown from the other side"
    );
}

#[test]
fn early_ticks_change_nothing() {
    let mut s = session_with_current("ක");
    let ka = choice_with_text(&s, "ka");
    s.submit_answer(ka, "ka", 100).unwrap();
    let locked = s.state();

    for now in [0, 100, 500, 1099, 1099, 1099] {
        s.tick(now);
        assert_eq!(s.state(), locked, "a tick below the delay threshold must change nothing");
        assert_eq!(s.lock_time(), Some(100));
        assert_eq!(s.question_text(), "ක");
    }

    s.tick(1100);
    assert_eq!(
        s.state(),
        SessionState::AwaitingAnswer,
        "a tick landing exactly on the boundary advances"
    );
}

#[test]
fn ticks_while_awaiting_an_answer_change_nothing() {
    let mut s = session_with_current("ක");
    for now in [0, 1000, 1_000_000] {
        s.tick(now);
        assert_eq!(s.state(), SessionState::AwaitingAnswer);
        assert_eq!(s.question_text(), "ක");
    }
}

#[test]
fn unknown_choice_is_refused_without_state_change() {
    let mut s = session_with_current("ක");
    let ka = choice_with_text(&s, "ka");

    let out_of_range = s.submit_answer(99, "ka", 5);
    assert!(matches!(out_of_range, Err(QuizError::NoMatchingChoice)));
    assert_eq!(s.state(), SessionState::AwaitingAnswer);
    assert_eq!(s.lock_time(), None);

    let mismatched_text = s.submit_answer(ka, "ga", 5);
    assert!(matches!(mismatched_text, Err(QuizError::NoMatchingChoice)));
    assert_eq!(s.state(), SessionState::AwaitingAnswer);
    assert_eq!(s.question_text(), "ක");
}

#[test]
fn session_reroll_draws_a_fresh_pool() {
    let mut s = QuizSession::new(letters(), 3, 21).unwrap();
    let before = s.question_text();
    s.reroll();
    assert_eq!(s.state(), SessionState::AwaitingAnswer);
    assert_eq!(s.choice_count(), 3);
    assert_ne!(s.question_text(), before, "a reroll must move off the previous question");
    let corpus = letters();
    for i in 0..s.choice_count() {
        let text = s.choice_text(i);
        assert!(
            corpus.iter().any(|c| c.answer(Direction::SourceToTarget) == text),
            "a rerolled choice must come from the corpus"
        );
    }
}

#[test]
fn events_drive_the_same_transitions() {
    let mut s = session_with_current("ක");
    let ka = choice_with_text(&s, "ka");

    let submit = SessionEvent::AnswerSubmitted { choice: ka, text: "ka".to_owned() };
    s.handle_event(&submit, 100).unwrap();
    assert_eq!(s.state(), SessionState::Locked { answered: ka, correct: true });

    s.handle_event(&SessionEvent::Tick, 1100).unwrap();
    assert_eq!(s.state(), SessionState::AwaitingAnswer);
    assert_eq!(s.question_text(), "බ");

    s.handle_event(&SessionEvent::DirectionSwitchRequested, 1200).unwrap();
    assert_eq!(s.direction(), Direction::TargetToSource);

    s.handle_event(&SessionEvent::RerollRequested, 1300).unwrap();
    assert_eq!(s.state(), SessionState::AwaitingAnswer);
    assert_eq!(s.choice_count(), 2);
}

#[test]
fn errors_describe_themselves() {
    assert!(QuizError::InsufficientCorpus.describe().contains("corpus"));
    assert!(QuizError::NoMatchingChoice.describe().contains("choice"));
}
