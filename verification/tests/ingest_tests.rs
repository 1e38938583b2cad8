use highlights::ingest::fetch_highlights;
use highlights::ingest::load_document;
use highlights::ingest::parse_document;
use highlights::HighlightError;

#[test]
fn parse_document_reads_all_fields() {
    let doc = r#"[
        {"period": "January 2025", "category": "Release Management", "description": "d1"},
        {"period": "February 2025", "category": "Control Plane", "description": "d2"}
    ]"#;
    let recs = parse_document(doc).unwrap();
    assert_eq!(recs.len(), 2);
    assert_eq!(recs[0].period, "January 2025");
    assert_eq!(recs[0].category, "Release Management");
    assert_eq!(recs[0].description, "d1");
    assert_eq!(recs[1].period, "February 2025");
    assert_eq!(recs[1].category, "Control Plane");
    assert_eq!(recs[1].description, "d2");
}

#[test]
fn parse_document_accepts_fields_in_any_order() {
    let doc = r#"[{"description": "d", "period": "P", "category": "C"}]"#;
    let recs = parse_document(doc).unwrap();
    assert_eq!(recs[0].period, "P");
    assert_eq!(recs[0].category, "C");
    assert_eq!(recs[0].description, "d");
}

#[test]
fn parse_document_rejects_malformed_text() {
    let r = parse_document("not json at all");
    assert_eq!(r, Err(HighlightError::DocumentParse));
}

#[test]
fn parse_document_rejects_a_missing_field() {
    let doc = r#"[{"period": "P", "category": "C"}]"#;
    assert_eq!(parse_document(doc), Err(HighlightError::DocumentParse));
}

#[test]
fn parse_document_rejects_a_mistyped_field() {
    let doc = r#"[{"period": "P", "category": 3, "description": "d"}]"#;
    assert_eq!(parse_document(doc), Err(HighlightError::DocumentParse));
}

#[test]
fn parse_document_rejects_a_non_array_document() {
    let doc = r#"{"period": "P", "category": "C", "description": "d"}"#;
    assert_eq!(parse_document(doc), Err(HighlightError::DocumentParse));
}

#[test]
fn parse_document_accepts_an_empty_array() {
    let recs = parse_document("[]").unwrap();
    assert_eq!(recs.len(), 0);
}

#[test]
fn load_document_rejects_zero_records_as_empty_result() {
    assert_eq!(load_document("[]"), Err(HighlightError::EmptyResult));
}

#[test]
fn load_document_keeps_parse_errors_distinct_from_empty() {
    assert_eq!(load_document("["), Err(HighlightError::DocumentParse));
}

#[test]
fn load_document_returns_nonempty_records() {
    let doc = r#"[{"period": "P", "category": "C", "description": "d"}]"#;
    let recs = load_document(doc).unwrap();
    assert_eq!(recs.len(), 1);
    assert_eq!(recs[0].period, "P");
}

#[test]
fn fetch_highlights_serves_the_embedded_document() {
    let recs = fetch_highlights().unwrap();
    assert_eq!(recs.len(), 6);
    assert_eq!(recs[0].period, "January 2025");
    assert_eq!(recs[0].category, "Release Management");
    assert_eq!(recs[3].period, "February 2025");
    assert_eq!(recs[5].description, "Creation of AC3 lib prototype.");
}

#[test]
fn fetched_records_group_into_two_periods() {
    let recs = fetch_highlights().unwrap();
    let groups = highlights::group_highlights(&recs);
    assert_eq!(groups.len(), 2);
    assert_eq!(groups[0].period, "January 2025");
    assert_eq!(groups[0].highlights.len(), 3);
    assert_eq!(groups[1].period, "February 2025");
    assert_eq!(groups[1].highlights.len(), 3);
    assert_eq!(groups[1].highlights[0].css_class, "configuration-management");
}

#[test]
fn parse_document_unescapes_string_values() {
    let doc = r#"[{"period": "P", "category": "C", "description": "a \"quoted\" word\nand a second line"}]"#;
    let recs = parse_document(doc).unwrap();
    assert_eq!(recs[0].description, "a \"quoted\" word\nand a second line");
}

#[test]
fn parse_document_rejects_nested_structures() {
    let doc = r#"[{"period": "P", "category": "C", "description": {"text": "d"}}]"#;
    assert_eq!(parse_document(doc), Err(HighlightError::DocumentParse));
}
