use workday_sftp_rest_server::canvas::depaginate::{
    canvas_start_url, join_json_arrays, page_chunk, page_records, unroll_request, PageError, UnrollError,
};

fn strings(v: &[&str]) -> Vec<String> {
    v.iter().map(|s| s.to_string()).collect()
}

#[test]
fn page_of_an_array_gives_its_elements_in_compact_form() {
    let r = page_records(r#"[ {"id": 1, "name": "A"}, 2, "x" ]"#);
    assert_eq!(r.unwrap(), strings(&[r#"{"id":1,"name":"A"}"#, "2", r#""x""#]));
    assert_eq!(page_records("[]").unwrap(), Vec::<String>::new());
}

#[test]
fn page_of_an_object_with_one_array_gives_that_array() {
    let r = page_records(r#"{"enrollment_terms": [{"id": 5}, {"id": 6}]}"#);
    assert_eq!(r.unwrap(), strings(&[r#"{"id":5}"#, r#"{"id":6}"#]));
}

#[test]
fn page_of_an_object_with_other_than_one_array_is_refused() {
    assert_eq!(page_records(r#"{"a": [1], "b": [2]}"#), Err(PageError::MapNotOneField));
    assert_eq!(page_records("{}"), Err(PageError::MapNotOneField));
}

#[test]
fn page_of_anything_else_is_unhandled() {
    assert_eq!(page_records(r#"{"a": 1}"#), Err(PageError::Unhandled));
    assert_eq!(page_records(r#"{"a": [1], "b": 2}"#), Err(PageError::Unhandled));
    assert_eq!(page_records(r#""text""#), Err(PageError::Unhandled));
    assert_eq!(page_records("not json"), Err(PageError::Unhandled));
}

#[test]
fn page_chunks_join_records_and_close_or_continue() {
    assert_eq!(page_chunk(&strings(&["1", "{\"a\":2}"]), true), b"1,{\"a\":2}]".to_vec());
    assert_eq!(page_chunk(&strings(&["1", "2"]), false), b"1,2,".to_vec());
    assert_eq!(page_chunk(&strings(&["\"é\""]), true), "\"é\"]".as_bytes().to_vec());
    assert_eq!(page_chunk(&Vec::new(), false), b",".to_vec());
    assert_eq!(page_chunk(&Vec::new(), true), b"]".to_vec());
}

#[test]
fn pages_chunked_in_turn_form_one_array() {
    let mut body = b"[".to_vec();
    body.extend(page_chunk(&strings(&["1", "2"]), false));
    body.extend(page_chunk(&strings(&["3"]), true));
    assert_eq!(body, b"[1,2,3]".to_vec());
}

#[test]
fn arrays_are_joined_into_one() {
    let bodies = vec![b"[1,2]".to_vec(), b"[{\"a\":3}]".to_vec()];
    assert_eq!(join_json_arrays(&bodies), Some(b"[1,2,{\"a\":3}]".to_vec()));
    assert_eq!(join_json_arrays(&Vec::new()), Some(b"[]".to_vec()));
    assert_eq!(join_json_arrays(&vec![b"[1]".to_vec(), b"{}".to_vec()]), None);
    assert_eq!(join_json_arrays(&vec![b"[".to_vec()]), None);
}

#[test]
fn unroll_parameter_gives_the_key_and_the_pairs() {
    let (key, pairs) = unroll_request(r#"{"course": [{"sis_course_id": "C1"}, {"id": "42"}]}"#).unwrap();
    assert_eq!(key, "course");
    assert_eq!(
        pairs,
        vec![("sis_course_id".to_string(), "C1".to_string()), ("id".to_string(), "42".to_string())]
    );
    let (key, pairs) = unroll_request(r#"{"x": []}"#).unwrap();
    assert_eq!(key, "x");
    assert!(pairs.is_empty());
}

#[test]
fn unroll_parameter_of_the_wrong_shape_is_refused() {
    assert_eq!(unroll_request("not json"), Err(UnrollError::NotJson));
    assert_eq!(unroll_request("[1]"), Err(UnrollError::NotAnObject));
    assert_eq!(unroll_request(r#"{"a": [], "b": []}"#), Err(UnrollError::NotOneKey));
    assert_eq!(unroll_request("{}"), Err(UnrollError::NotOneKey));
    assert_eq!(unroll_request(r#"{"a": "x"}"#), Err(UnrollError::NotAnArray));
    assert_eq!(unroll_request(r#"{"a": [1]}"#), Err(UnrollError::ItemNotAnObject));
    assert_eq!(unroll_request(r#"{"a": [{"x": "1", "y": "2"}]}"#), Err(UnrollError::ItemNotOneKey));
    assert_eq!(unroll_request(r#"{"a": [{"x": 1}]}"#), Err(UnrollError::ItemValueNotAString));
    assert_eq!(unroll_request(r#"{"a": [{"x": "1"}, 7, {"y": 2}]}"#), Err(UnrollError::ItemNotAnObject));
}

#[test]
fn start_url_appends_the_parameters() {
    let params = vec![("per_page".to_string(), "100".to_string()), ("include[]".to_string(), "a b".to_string())];
    assert_eq!(
        canvas_start_url("api/v1/courses", &params).unwrap(),
        "https://cloviscc.instructure.com/api/v1/courses?per_page=100&include%5B%5D=a+b"
    );
    assert_eq!(
        canvas_start_url("api/v1/accounts/1", &Vec::new()).unwrap(),
        "https://cloviscc.instructure.com/api/v1/accounts/1?"
    );
}

#[test]
fn start_url_encodes_the_path() {
    assert_eq!(
        canvas_start_url("a b/c", &Vec::new()).unwrap(),
        "https://cloviscc.instructure.com/a%20b/c?"
    );
}
