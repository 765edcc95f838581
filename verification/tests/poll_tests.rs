use poll_core::model::PollError;
use poll_core::poll::PollContract;

fn created(question: &str, options: &[&str]) -> PollContract {
    let mut c = PollContract::new();
    let opts: Vec<String> = options.iter().map(|s| s.to_string()).collect();
    c.create_poll(question.to_string(), opts);
    c
}

#[test]
fn initialization_tallies_every_option_at_zero() {
    let c = created("q", &["a", "b", "c"]);
    let results = c.get_results().unwrap();
    assert_eq!(
        results,
        vec![
            ("a".to_string(), 0u32),
            ("b".to_string(), 0u32),
            ("c".to_string(), 0u32),
        ]
    );
}

#[test]
fn votes_increment_their_option() {
    let mut c = created("q", &["a", "b"]);
    assert_eq!(c.vote("a".to_string()), Ok(()));
    assert_eq!(c.vote("a".to_string()), Ok(()));
    assert_eq!(c.vote("b".to_string()), Ok(()));
    let results = c.get_results().unwrap();
    assert_eq!(
        results,
        vec![("a".to_string(), 2u32), ("b".to_string(), 1u32)]
    );
}

#[test]
fn recreate_discards_prior_tallies() {
    let mut c = created("q", &["a", "b"]);
    assert_eq!(c.vote("a".to_string()), Ok(()));
    assert_eq!(c.vote("a".to_string()), Ok(()));
    assert_eq!(c.vote("b".to_string()), Ok(()));
    let opts: Vec<String> = vec!["x".to_string(), "y".to_string()];
    c.create_poll("q2".to_string(), opts);
    let results = c.get_results().unwrap();
    assert_eq!(
        results,
        vec![("x".to_string(), 0u32), ("y".to_string(), 0u32)]
    );
}

#[test]
fn vote_without_record_fails_with_missing_record() {
    let mut c = PollContract::new();
    assert_eq!(c.vote("a".to_string()), Err(PollError::MissingRecord));
}

#[test]
fn read_without_record_fails_with_missing_record() {
    let c = PollContract::new();
    assert_eq!(c.get_results(), Err(PollError::MissingRecord));
}

#[test]
fn vote_for_unknown_option_fails_and_changes_nothing() {
    let mut c = created("q", &["a", "b"]);
    assert_eq!(c.vote("z".to_string()), Err(PollError::InvalidOption));
    let results = c.get_results().unwrap();
    assert_eq!(
        results,
        vec![("a".to_string(), 0u32), ("b".to_string(), 0u32)]
    );
}

#[test]
fn vote_for_unknown_option_keeps_earlier_votes() {
    let mut c = created("q", &["a"]);
    assert_eq!(c.vote("a".to_string()), Ok(()));
    assert_eq!(c.vote("z".to_string()), Err(PollError::InvalidOption));
    let results = c.get_results().unwrap();
    assert_eq!(results, vec![("a".to_string(), 1u32)]);
}

#[test]
fn consecutive_reads_return_identical_results() {
    let mut c = created("q", &["a", "b"]);
    assert_eq!(c.vote("b".to_string()), Ok(()));
    let first = c.get_results();
    let second = c.get_results();
    assert_eq!(first, second);
}

#[test]
fn end_to_end_favorite_color() {
    let mut c = created("favorite_color", &["red", "blue"]);
    assert_eq!(c.vote("red".to_string()), Ok(()));
    assert_eq!(c.vote("red".to_string()), Ok(()));
    assert_eq!(c.vote("blue".to_string()), Ok(()));
    let results = c.get_results().unwrap();
    assert_eq!(
        results,
        vec![("red".to_string(), 2u32), ("blue".to_string(), 1u32)]
    );
}

#[test]
fn poll_with_no_options_has_empty_results_and_takes_no_vote() {
    let mut c = created("q", &[]);
    assert_eq!(c.get_results(), Ok(vec![]));
    assert_eq!(c.vote("a".to_string()), Err(PollError::InvalidOption));
}

#[test]
fn duplicate_options_each_keep_a_slot_and_the_first_one_counts() {
    let mut c = created("q", &["a", "a"]);
    assert_eq!(c.vote("a".to_string()), Ok(()));
    let results = c.get_results().unwrap();
    assert_eq!(
        results,
        vec![("a".to_string(), 1u32), ("a".to_string(), 0u32)]
    );
}

#[test]
fn results_keep_creation_order() {
    let mut c = created("q", &["c", "a", "b"]);
    assert_eq!(c.vote("a".to_string()), Ok(()));
    let results = c.get_results().unwrap();
    assert_eq!(
        results,
        vec![
            ("c".to_string(), 0u32),
            ("a".to_string(), 1u32),
            ("b".to_string(), 0u32),
        ]
    );
}
