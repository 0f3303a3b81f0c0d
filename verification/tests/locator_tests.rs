use sidecar_supervisor::locator::{locate_first, ResolvedCandidate};

fn cand(path: &str, exists: bool) -> ResolvedCandidate {
    ResolvedCandidate { path: path.to_string(), exists }
}

#[test]
fn first_existing_candidate_wins() {
    let cands = vec![
        cand("/app/next-standalone", false),
        cand("/app/resources/next-standalone", true),
    ];
    assert_eq!(locate_first(&cands), Some(1));
}

#[test]
fn earlier_candidate_beats_later_even_if_both_exist() {
    let cands = vec![
        cand("/app/next-standalone", true),
        cand("/app/resources/next-standalone", true),
    ];
    assert_eq!(locate_first(&cands), Some(0));
}

#[test]
fn priority_is_deterministic_over_longer_lists() {
    let cands = vec![
        cand("/a", false),
        cand("/b", false),
        cand("/c", true),
        cand("/d", true),
        cand("/e", true),
    ];
    assert_eq!(locate_first(&cands), Some(2));
}

#[test]
fn no_candidate_exists_fails() {
    let cands = vec![
        cand("/app/next-standalone", false),
        cand("/app/resources/next-standalone", false),
    ];
    assert_eq!(locate_first(&cands), None);
}

#[test]
fn empty_candidate_list_fails() {
    let cands: Vec<ResolvedCandidate> = vec![];
    assert_eq!(locate_first(&cands), None);
}
