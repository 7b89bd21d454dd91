use vanity_bip39::search::{
    hit_decision, threshold_hit, words_for_worker, BestScore, OpsCounter,
    BENCHMARK_SAMPLE_INTERVAL, DEFAULT_MIN_SCORE,
};

#[test]
fn threshold_is_strictly_greater_than() {
    assert_eq!(DEFAULT_MIN_SCORE, 400);
    assert!(threshold_hit(401, DEFAULT_MIN_SCORE));
    assert!(!threshold_hit(400, DEFAULT_MIN_SCORE));
    assert!(!threshold_hit(399, DEFAULT_MIN_SCORE));
    assert!(threshold_hit(4000, DEFAULT_MIN_SCORE));
}

#[test]
fn worker_word_counts_alternate_by_default() {
    assert_eq!(words_for_worker(0, 0), 24);
    assert_eq!(words_for_worker(1, 0), 12);
    assert_eq!(words_for_worker(2, 0), 24);
    assert_eq!(words_for_worker(3, 0), 12);
}

#[test]
fn requested_word_count_wins() {
    assert_eq!(words_for_worker(0, 12), 12);
    assert_eq!(words_for_worker(1, 12), 12);
    assert_eq!(words_for_worker(0, 24), 24);
    assert_eq!(words_for_worker(1, 24), 24);
    // Anything else falls back to the alternating default.
    assert_eq!(words_for_worker(1, 18), 12);
}

#[test]
fn hit_needs_score_and_match() {
    assert!(hit_decision(5, 5, true));
    assert!(hit_decision(6, 5, true));
    assert!(!hit_decision(4, 5, true));
    assert!(!hit_decision(6, 5, false));
}

#[test]
fn best_score_rises_and_ties_report() {
    let mut best = BestScore::new();
    assert_eq!(best.current(), 0);

    assert!(best.observe(5));
    assert_eq!(best.current(), 5);

    assert!(!best.observe(3));
    assert_eq!(best.current(), 5);

    // A tie with the best is reported again, and the best stays put.
    assert!(best.observe(5));
    assert_eq!(best.current(), 5);

    assert!(best.observe(7));
    assert_eq!(best.current(), 7);
}

#[test]
fn best_score_never_decreases() {
    let mut best = BestScore::new();
    let scores = [3, 1, 4, 1, 5, 9, 2, 6, 5, 3, 5];
    let mut previous = best.current();
    for s in scores {
        best.observe(s);
        assert!(best.current() >= previous);
        previous = best.current();
    }
    assert_eq!(best.current(), 9);
}

#[test]
fn ops_counter_samples_on_cadence() {
    assert_eq!(BENCHMARK_SAMPLE_INTERVAL, 10000);
    let mut ops = OpsCounter::new();
    assert_eq!(ops.count(), 0);

    // The verdict goes by the count before the increment.
    assert!(ops.record());
    assert_eq!(ops.count(), 1);
    assert!(!ops.record());
    assert_eq!(ops.count(), 2);
    for _ in 2..10000 {
        assert!(!ops.record());
    }
    assert_eq!(ops.count(), 10000);
    assert!(ops.record());
}
