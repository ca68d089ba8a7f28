use element_waiter::matching::{check_has, check_has_all, check_lacks, check_lacks_all, TextPattern};

#[test]
fn full_match_is_equality() {
    let p = TextPattern::new(String::from("tab-active"));
    assert!(p.matches_str("tab-active"));
    assert!(!p.matches_str("tab-active primary"));
    assert!(!p.matches_str("tab"));
}

#[test]
fn partial_match_is_substring() {
    let p = TextPattern::new(String::from("act")).partial();
    assert!(p.matches_str("tab-active"));
    assert!(!p.matches_str("tab-open"));
}

#[test]
fn word_match_needs_boundaries() {
    let p = TextPattern::new(String::from("btn")).word();
    assert!(p.matches_str("btn primary"));
    assert!(p.matches_str("primary btn"));
    assert!(!p.matches_str("button primary"));
}

#[test]
fn case_insensitive_folds_both_sides() {
    let sensitive = TextPattern::new(String::from("Accept"));
    assert!(!sensitive.matches_str("ACCEPT"));
    let insensitive = TextPattern::new(String::from("Accept")).case_insensitive();
    assert!(insensitive.matches_str("ACCEPT"));
    assert!(insensitive.matches_str("accept"));
    assert!(!insensitive.matches_str("decline"));
}

#[test]
fn has_requires_a_present_value() {
    let p = TextPattern::new(String::from("ready"));
    assert!(check_has(&Some(String::from("ready")), &p));
    assert!(!check_has(&Some(String::from("busy")), &p));
    assert!(!check_has(&None, &p));
}

#[test]
fn lacks_holds_for_missing_value() {
    let p = TextPattern::new(String::from("ready"));
    assert!(!check_lacks(&Some(String::from("ready")), &p));
    assert!(check_lacks(&Some(String::from("busy")), &p));
    assert!(check_lacks(&None, &p));
}

#[test]
fn has_all_requires_every_pair() {
    let patterns = vec![
        TextPattern::new(String::from("on")),
        TextPattern::new(String::from("open")).partial(),
    ];
    let all_good = vec![Some(String::from("on")), Some(String::from("reopened"))];
    assert!(check_has_all(&all_good, &patterns));
    let one_missing = vec![Some(String::from("on")), None];
    assert!(!check_has_all(&one_missing, &patterns));
    let one_wrong = vec![Some(String::from("off")), Some(String::from("reopened"))];
    assert!(!check_has_all(&one_wrong, &patterns));
}

#[test]
fn lacks_all_rejects_any_match() {
    let patterns = vec![
        TextPattern::new(String::from("on")),
        TextPattern::new(String::from("open")).partial(),
    ];
    let none_match = vec![Some(String::from("off")), None];
    assert!(check_lacks_all(&none_match, &patterns));
    let second_matches = vec![Some(String::from("off")), Some(String::from("reopened"))];
    assert!(!check_lacks_all(&second_matches, &patterns));
}
