use workday_sftp_rest_server::canvas::depaginate::{next_page_link, parse_link_next, strip_array_brackets, unroll_path};
use workday_sftp_rest_server::text::{chars_of, i32_to_decimal, replace_all, split_chars, str_eq, u64_to_decimal};

#[test]
fn decimal_formatting_matches_format() {
    for n in [0u64, 7, 10, 42, 1999, u64::MAX] {
        assert_eq!(u64_to_decimal(n), format!("{n}"));
    }
    for i in [0i32, -1, 2024, i32::MIN, i32::MAX] {
        assert_eq!(i32_to_decimal(i), format!("{i}"));
    }
}

#[test]
fn replace_matches_std() {
    let cases = [("aaaa", "aa", "b"), ("abcabc", "bc", "X"), ("xyz", "q", "r"), ("UNROLL:x/UNROLL:x", "UNROLL:x", "7"), ("aaa", "aa", "aa")];
    for (s, p, w) in cases {
        assert_eq!(replace_all(s, p, w), s.replace(p, w));
    }
}

#[test]
fn split_matches_std() {
    for s in ["", "a", "a,b", ",", "a,,b,"] {
        let parts: Vec<String> = split_chars(&chars_of(s), ',').into_iter().map(|v| v.into_iter().collect()).collect();
        let expected: Vec<String> = s.split(',').map(|x| x.to_string()).collect();
        assert_eq!(parts, expected);
    }
    assert!(str_eq("héllo", "héllo"));
    assert!(!str_eq("hello", "hellO"));
}

#[test]
fn link_header_next_is_found() {
    let header = "<https://x.instructure.com/api/v1/courses?page=2&per_page=10>; rel=\"current\",<https://x.instructure.com/api/v1/courses?page=3&per_page=10>; rel=\"next\",<https://x.instructure.com/api/v1/courses?page=1&per_page=10>; rel=\"first\"";
    assert_eq!(
        parse_link_next(header).as_deref(),
        Some("https://x.instructure.com/api/v1/courses?page=3&per_page=10")
    );
    assert_eq!(parse_link_next("<a>; rel=\"last\""), None);
    assert_eq!(parse_link_next("no separator here"), None);
    // A space after the comma stays in front of the URL, as `str::split` leaves it.
    assert_eq!(parse_link_next("<a>; rel=\"last\", <b>; rel=\"next\"").as_deref(), Some(" <b"));
    assert_eq!(parse_link_next("<<a>>; rel=\"next\"").as_deref(), Some("a"));
}

#[test]
fn next_page_respects_single_page_requests() {
    assert_eq!(next_page_link(true, Some("<a>; rel=\"next\"")), None);
    assert_eq!(next_page_link(false, Some("<a>; rel=\"next\"")).as_deref(), Some("a"));
    assert_eq!(next_page_link(false, None), None);
}

#[test]
fn unrolled_paths_substitute_values() {
    let path = "api/v1/UNROLL:user:keyed/courses/UNROLL:user/x";
    let got = unroll_path(path, "user", "sis_user_id", "C0001");
    assert_eq!(got, "api/v1/sis_user_id:C0001/courses/C0001/x");
    let expected = path.replace("UNROLL:user:keyed", "sis_user_id:C0001").replace("UNROLL:user", "C0001");
    assert_eq!(got, expected);
}

#[test]
fn array_brackets_are_stripped() {
    assert_eq!(strip_array_brackets(b"[1,2]"), Some(b"1,2".to_vec()));
    assert_eq!(strip_array_brackets(b"[]"), Some(Vec::new()));
    assert_eq!(strip_array_brackets(b"{}"), None);
    assert_eq!(strip_array_brackets(b"["), None);
}
