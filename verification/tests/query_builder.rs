use uprs::query_builder::{
    build, note_page_size, refusal, with_page_size, with_param, Arrival,
};

fn param(key: &str, value: &str) -> (String, String) {
    (key.to_string(), value.to_string())
}

#[test]
fn with_param_appends_at_the_end() {
    let params = vec![param("a", "1")];
    let extended = with_param(params, "filter[status]", "HELD".to_string());
    assert_eq!(extended, vec![param("a", "1"), param("filter[status]", "HELD")]);
}

#[test]
fn page_size_within_the_range_is_added() {
    assert_eq!(with_page_size(Vec::new(), 1, 30), vec![param("page[size]", "1")]);
    assert_eq!(with_page_size(Vec::new(), 30, 30), vec![param("page[size]", "30")]);
    assert_eq!(with_page_size(Vec::new(), 50, 50), vec![param("page[size]", "50")]);
}

#[test]
fn page_size_outside_the_range_is_dropped() {
    let params = vec![param("a", "1")];
    let params = with_page_size(params, 0, 30);
    assert_eq!(params, vec![param("a", "1")]);
    let params = with_page_size(params, 31, 30);
    assert_eq!(params, vec![param("a", "1")]);
    let params = with_page_size(params, -5, 30);
    assert_eq!(params, vec![param("a", "1")]);
    let params = with_page_size(params, i32::MIN, 30);
    assert_eq!(params, vec![param("a", "1")]);
    let params = with_page_size(params, i32::MAX, 30);
    assert_eq!(params, vec![param("a", "1")]);
    let params = with_page_size(params, 1, 0);
    assert_eq!(params, vec![param("a", "1")]);
}

#[test]
fn refusal_lets_only_status_200_through() {
    assert_eq!(refusal(Arrival::Status(200)), None);
    assert_eq!(refusal(Arrival::Status(201)), Some(201));
    assert_eq!(refusal(Arrival::Status(404)), Some(404));
    assert_eq!(refusal(Arrival::Status(500)), Some(500));
}

#[test]
fn refusal_of_a_transport_failure() {
    assert_eq!(refusal(Arrival::Failed { status: Some(502) }), Some(502));
    assert_eq!(refusal(Arrival::Failed { status: None }), Some(400));
}

#[test]
fn build_keeps_the_value_or_fails_with_400() {
    assert_eq!(build::<u32>(Ok(7)), Ok(7));
    assert_eq!(build::<u32>(Err("expected value at line 1".to_string())), Err(400));
}

#[test]
fn note_page_size_records_only_what_is_dropped() {
    let warnings = note_page_size(Vec::new(), 30, 30);
    assert_eq!(warnings, Vec::<String>::new());
    let warnings = note_page_size(warnings, 31, 30);
    assert_eq!(warnings, vec!["Page size has to be between 1 and 30.".to_string()]);
    let warnings = note_page_size(warnings, 0, 100);
    assert_eq!(
        warnings,
        vec![
            "Page size has to be between 1 and 30.".to_string(),
            "Page size has to be between 1 and 100.".to_string(),
        ]
    );
}
