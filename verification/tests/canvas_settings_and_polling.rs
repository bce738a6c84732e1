use workday_sftp_rest_server::canvas::csv_defs::ASDStatus;
use workday_sftp_rest_server::canvas::{sso_test_user, sso_test_user_deletion};
use workday_sftp_rest_server::server::{https_host, ports, Ports};
use workday_sftp_rest_server::canvas::csv_defs::{delete_marker, is_delete_marker};
use workday_sftp_rest_server::canvas::{
    sis_import_id, CanvasError, JsonField, PollStep, Settings, WorkflowError, WorkflowPoll,
};

#[test]
fn sis_urls_are_built_from_base_and_account() {
    let s = Settings::default();
    assert_eq!(s.sis_account_url, "https://unset/");
    let s = s.rebuild_cache().unwrap();
    assert_eq!(s.sis_account_url, "https://yoururl.instructure.com/api/v1/accounts/12345/");
    assert_eq!(s.get_sis_import_url().unwrap(), "https://yoururl.instructure.com/api/v1/accounts/12345/sis_imports");
    assert_eq!(
        s.get_sis_check_url(987).unwrap(),
        "https://yoururl.instructure.com/api/v1/accounts/12345/sis_imports/987"
    );
}

#[test]
fn invalid_base_url_is_refused() {
    let mut s = Settings::default();
    s.base_url = "not a url".to_string();
    assert!(matches!(s.rebuild_cache(), Err(CanvasError::InvalidUrl(_))));
}

#[test]
fn import_id_is_read_from_reply() {
    assert_eq!(sis_import_id(JsonField::Value(12)).unwrap(), 12);
    assert!(matches!(sis_import_id(JsonField::NotAnObject), Err(CanvasError::ImportNotAnObject)));
    assert!(matches!(sis_import_id(JsonField::Missing), Err(CanvasError::ImportWithoutId)));
    assert!(matches!(sis_import_id(JsonField::OtherType), Err(CanvasError::ImportIdNotU64)));
}

#[test]
fn poll_waits_longer_up_to_fifteen_seconds() {
    let mut p = WorkflowPoll::new();
    let mut waits = Vec::new();
    while p.can_check() {
        match p.on_reply(JsonField::Value("importing".to_string())).unwrap() {
            PollStep::Wait(s) => waits.push(s),
            PollStep::Done => panic!("not done"),
        }
    }
    assert_eq!(waits.len(), 180);
    assert_eq!(&waits[..16], &[1, 2, 3, 4, 5, 6, 7, 8, 9, 10, 11, 12, 13, 14, 15, 15]);
    assert!(waits.iter().all(|w| *w <= 15));
    assert!(matches!(p.timed_out(), WorkflowError::TimedOut));
}

#[test]
fn poll_finishes_or_fails_on_states() {
    let mut p = WorkflowPoll::new();
    assert_eq!(p.on_reply(JsonField::Value("created".to_string())).unwrap(), PollStep::Wait(1));
    assert_eq!(p.on_reply(JsonField::Value("imported_with_messages".to_string())).unwrap(), PollStep::Done);
    assert_eq!(p.on_reply(JsonField::Value("imported".to_string())).unwrap(), PollStep::Done);
    assert!(matches!(p.on_reply(JsonField::Value("failed".to_string())), Err(WorkflowError::Issue(s)) if s == "failed"));
    assert!(matches!(p.on_reply(JsonField::NotAnObject), Err(WorkflowError::NotAnObject)));
    assert!(matches!(p.on_reply(JsonField::Missing), Err(WorkflowError::NoWorkflowState)));
    assert!(matches!(p.on_reply(JsonField::OtherType), Err(WorkflowError::StateNotAString)));
    assert_eq!(p.checks, 1);
    assert_eq!(p.sleep_secs, 2);
}

#[test]
fn sso_test_users() {
    let d = sso_test_user_deletion();
    assert_eq!(d.user_id.0, "SSO_TEST");
    assert_eq!(d.login_id.0, "<deleted>");
    assert_eq!(d.status, ASDStatus::Deleted);
    assert!(d.first_name.is_none());
    let u = sso_test_user("jdoe".to_string(), "saml".to_string(), Some("j@x".to_string()));
    assert_eq!(u.user_id.0, "SSO_TEST");
    assert_eq!(u.login_id.0, "jdoe");
    assert_eq!(u.authentication_provider_id.unwrap().0, "saml");
    assert_eq!(u.first_name.as_deref(), Some("SSO"));
    assert_eq!(u.last_name.as_deref(), Some("Test"));
    assert_eq!(u.email.as_deref(), Some("j@x"));
    assert_eq!(u.status, ASDStatus::Active);
}

#[test]
fn https_redirect_host() {
    assert_eq!(ports(true), Ports { http: 4080, https: 4443 });
    assert_eq!(ports(false), Ports { http: 4081, https: 4444 });
    assert_eq!(https_host("example.org:4080", ports(true)), "example.org:4443");
    assert_eq!(https_host("example.org", ports(true)), "example.org");
}

#[test]
fn delete_marker_cells() {
    assert_eq!(delete_marker(), "<delete>");
    assert!(is_delete_marker("<delete>"));
    assert!(!is_delete_marker("<Delete>"));
}
