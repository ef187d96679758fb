use jdfund::fetch::{plan_for_method, plan_request, FetchError, RequestPlan};

#[test]
fn put_is_rejected() {
    assert_eq!(plan_request("PUT", None), Err(FetchError::UnsupportedMethod));
    assert_eq!(plan_request("delete", Some("{}".to_string())), Err(FetchError::UnsupportedMethod));
}

#[test]
fn get_in_any_case_drops_body() {
    assert_eq!(plan_request("GET", None), Ok(RequestPlan::Get));
    assert_eq!(plan_request("get", Some("{\"a\":1}".to_string())), Ok(RequestPlan::Get));
}

#[test]
fn post_carries_body_as_json() {
    assert_eq!(
        plan_request("post", Some("{\"a\":1}".to_string())),
        Ok(RequestPlan::Post { json_body: Some("{\"a\":1}".to_string()) })
    );
    assert_eq!(plan_request("POST", None), Ok(RequestPlan::Post { json_body: None }));
}

#[test]
fn method_is_upper_cased_before_matching() {
    assert_eq!(plan_for_method("get", None), Err(FetchError::UnsupportedMethod));
    assert_eq!(plan_request("gEt", None), Ok(RequestPlan::Get));
    // U+017F LATIN SMALL LETTER LONG S upper-cases to 'S'
    assert_eq!(plan_request("po\u{17f}t", None), Ok(RequestPlan::Post { json_body: None }));
}

#[test]
fn plan_for_upper_case_names() {
    assert_eq!(plan_for_method("GET", None), Ok(RequestPlan::Get));
    assert_eq!(plan_for_method("POST", Some("x".to_string())), Ok(RequestPlan::Post { json_body: Some("x".to_string()) }));
    assert_eq!(plan_for_method("PATCH", None), Err(FetchError::UnsupportedMethod));
    assert_eq!(plan_for_method("", None), Err(FetchError::UnsupportedMethod));
}
