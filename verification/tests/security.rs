use lunar::security::{
    answer_trust, is_affirmative, is_trusted, is_yes, prompt_for_trust, trust, TrustDecision,
    TrustStore,
};

fn subjects(store: &TrustStore) -> Vec<String> {
    let mut all = Vec::new();
    for i in 0..store.len() {
        all.push(store.subject_at(i).clone());
    }
    all
}

#[test]
fn nothing_is_trusted_at_first() {
    let store = TrustStore::new();
    assert_eq!(store.len(), 0);
    assert!(!is_trusted(&store, "https://example.com/tools.git"));
    assert!(!is_trusted(&store, ""));
}

#[test]
fn trusting_is_idempotent() {
    let mut store = TrustStore::new();
    assert!(trust(&mut store, "a"));
    assert!(trust(&mut store, "b"));
    assert!(!trust(&mut store, "a"));
    assert_eq!(subjects(&store), vec!["a".to_string(), "b".to_string()]);
    assert!(is_trusted(&store, "a"));
    assert!(is_trusted(&store, "b"));
    assert!(!is_trusted(&store, "c"));
}

#[test]
fn setup_and_download_are_distinct_subjects() {
    let mut store = TrustStore::new();
    trust(&mut store, "https://example.com/tools.git");
    assert!(is_trusted(&store, "https://example.com/tools.git"));
    assert!(!is_trusted(&store, "lunar-setup for https://example.com/tools.git"));
}

#[test]
fn a_trusted_subject_is_not_asked_about() {
    let mut store = TrustStore::new();
    trust(&mut store, "a");
    assert_eq!(prompt_for_trust(&mut store, "a", false), TrustDecision::Trusted);
    assert_eq!(prompt_for_trust(&mut store, "a", true), TrustDecision::Trusted);
    assert_eq!(subjects(&store), vec!["a".to_string()]);
}

#[test]
fn a_new_subject_is_recorded_unasked_when_new_subjects_are_trusted() {
    let mut store = TrustStore::new();
    assert_eq!(prompt_for_trust(&mut store, "a", true), TrustDecision::Recorded);
    assert_eq!(subjects(&store), vec!["a".to_string()]);
    assert_eq!(prompt_for_trust(&mut store, "a", true), TrustDecision::Trusted);
}

#[test]
fn a_new_subject_is_asked_about_otherwise() {
    let mut store = TrustStore::new();
    assert_eq!(prompt_for_trust(&mut store, "a", false), TrustDecision::Ask);
    assert_eq!(store.len(), 0);
}

#[test]
fn only_a_yes_records_trust() {
    let mut store = TrustStore::new();
    assert!(!answer_trust(&mut store, "a", "n\n"));
    assert!(!answer_trust(&mut store, "a", "\n"));
    assert!(!answer_trust(&mut store, "a", "yes\n"));
    assert_eq!(store.len(), 0);
    assert!(answer_trust(&mut store, "a", "y\n"));
    assert_eq!(subjects(&store), vec!["a".to_string()]);
    assert!(answer_trust(&mut store, "b", "  Y \r\n"));
    assert_eq!(subjects(&store), vec!["a".to_string(), "b".to_string()]);
}

#[test]
fn answers_are_trimmed_and_lowercased() {
    assert!(is_affirmative("y"));
    assert!(is_affirmative("Y"));
    assert!(is_affirmative(" y\n"));
    assert!(is_affirmative("\tY\r\n"));
    assert!(!is_affirmative(""));
    assert!(!is_affirmative("n"));
    assert!(!is_affirmative("yes"));
    assert!(!is_affirmative("y y"));
    assert!(is_yes("y"));
    assert!(!is_yes("Y"));
    assert!(!is_yes(" y"));
    assert!(!is_yes(""));
}
