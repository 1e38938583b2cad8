use highlights::AppState;
use highlights::HighlightError;
use highlights::StoredHighlight;

fn stored(period: &str) -> StoredHighlight {
    StoredHighlight {
        period: period.to_string(),
        category: "C".to_string(),
        description: "d".to_string(),
    }
}

#[test]
fn fresh_state_is_empty() {
    let s = AppState::new();
    assert_eq!(s.highlights.len(), 0);
    assert_eq!(s.last_error, None);
    assert_eq!(s.latest_request, 0);
}

#[test]
fn begin_fetch_hands_out_fresh_tokens() {
    let mut s = AppState::new();
    let t1 = s.begin_fetch();
    let t2 = s.begin_fetch();
    assert_eq!(t1, 1);
    assert_eq!(t2, 2);
    assert_eq!(s.latest_request, 2);
}

#[test]
fn successful_fetch_replaces_records_and_clears_error() {
    let mut s = AppState::new();
    s.last_error = Some(HighlightError::Transport);
    let t = s.begin_fetch();
    s.apply_fetch_result(t, Ok(vec![stored("P")]));
    assert_eq!(s.highlights.len(), 1);
    assert_eq!(s.highlights[0].period, "P");
    assert_eq!(s.last_error, None);
}

#[test]
fn failed_fetch_keeps_records_and_surfaces_error() {
    let mut s = AppState::new();
    let t = s.begin_fetch();
    s.apply_fetch_result(t, Ok(vec![stored("P")]));
    let t2 = s.begin_fetch();
    s.apply_fetch_result(t2, Err(HighlightError::Transport));
    assert_eq!(s.highlights.len(), 1);
    assert_eq!(s.highlights[0].period, "P");
    assert_eq!(s.last_error, Some(HighlightError::Transport));
}

#[test]
fn stale_fetch_outcome_is_ignored() {
    let mut s = AppState::new();
    let stale = s.begin_fetch();
    let latest = s.begin_fetch();
    s.apply_fetch_result(latest, Ok(vec![stored("New")]));
    s.apply_fetch_result(stale, Ok(vec![stored("Old")]));
    assert_eq!(s.highlights.len(), 1);
    assert_eq!(s.highlights[0].period, "New");
    s.apply_fetch_result(stale, Err(HighlightError::Transport));
    assert_eq!(s.last_error, None);
}
