use sha2::Digest;
use workday_sftp_rest_server::banner::{BannerError, Settings as BannerSettings};
use workday_sftp_rest_server::logging::{full_span_events, max_level, LogLevel};
use workday_sftp_rest_server::utils::csv::{
    csv_glob_path, dated_csv_glob, dated_csv_path, path_le_exec, plan_retention, sort_paths, RetentionError,
};
use workday_sftp_rest_server::utils::email::{plan_email, should_mail, EmailError, Settings as EmailSettings, SettingsReplies};
use workday_sftp_rest_server::utils::{Token, TokenError};

fn digest_of(token: &str) -> [u8; 64] {
    let d = sha2::Sha512::digest(token.as_bytes());
    let mut a = [0u8; 64];
    a.copy_from_slice(&d);
    a
}

#[test]
fn token_accepts_only_its_preimage() {
    let t = Token::new(digest_of("s3cret"));
    assert_eq!(t.assert_valid("s3cret"), Ok(()));
    assert_eq!(t.assert_valid("s3cret "), Err(TokenError::Invalid));
    assert_eq!(t.assert_valid(""), Err(TokenError::Invalid));
    assert_eq!(t.check_digest(&digest_of("s3cret")), Ok(()));
    assert_eq!(t.check_digest(&digest_of("other")), Err(TokenError::Invalid));
    assert_eq!(t.check_digest(&[0u8; 3]), Err(TokenError::Invalid));
}

#[test]
fn paths_sort_bytewise() {
    let v = vec!["b".to_string(), "a_10".to_string(), "a_9".to_string(), "a".to_string()];
    assert_eq!(sort_paths(&v), vec!["a", "a_10", "a_9", "b"]);
    assert!(path_le_exec("abc", "abd"));
    assert!(path_le_exec("ab", "abc"));
    assert!(!path_le_exec("b", "abc"));
}

#[test]
fn retention_keeps_the_newest() {
    let v: Vec<String> = ["d/INT069A_3.csv", "d/INT069A_1.csv", "d/INT069A_2.csv"].iter().map(|s| s.to_string()).collect();
    let p = plan_retention(&v, 2).unwrap();
    assert_eq!(p.newest, "d/INT069A_3.csv");
    assert_eq!(p.to_delete, vec!["d/INT069A_1.csv"]);
    assert!(p.keep_any);
    let p = plan_retention(&v, 5).unwrap();
    assert!(p.to_delete.is_empty());
    let p = plan_retention(&v, 0).unwrap();
    assert_eq!(p.to_delete.len(), 3);
    assert!(!p.keep_any);
    assert_eq!(plan_retention(&vec![], 1).err(), Some(RetentionError::NoMatches));
}

#[test]
fn dated_export_names() {
    assert_eq!(dated_csv_glob("INT004/INT004"), "INT004/INT004_*.csv");
    assert_eq!(csv_glob_path("/data", "INT069A*.csv"), "/data/INT069A*.csv");
    assert_eq!(
        dated_csv_path("/data", "INT004/INT004", 0, 5).as_deref(),
        Some("/data/INT004/INT004_1970-01-01-00-00-00-000000005.csv")
    );
    assert_eq!(
        dated_csv_path("/d", "x", 1700000000, 123456789).as_deref(),
        Some("/d/x_2023-11-14-22-13-20-123456789.csv")
    );
    assert_eq!(dated_csv_path("/d", "x", i64::MAX, 0), None);
}

fn settings() -> EmailSettings {
    EmailSettings {
        smtp_from: "From <f@x>".to_string(),
        smtp_reply_to: None,
        smtp_server: "127.0.0.1".to_string(),
        smtp_login: Some("l".to_string()),
        smtp_password: None,
        replies: vec![
            SettingsReplies {
                path: "/canvas/.*".to_string(),
                to: vec!["A <a@x>".to_string()],
                cc: vec![],
                bcc: vec!["B <b@x>".to_string()],
            },
            SettingsReplies {
                path: "/papercut".to_string(),
                to: vec!["C <c@x>".to_string()],
                cc: vec!["D <d@x>".to_string()],
                bcc: vec![],
            },
            SettingsReplies {
                path: "hr_training".to_string(),
                to: vec!["E <e@x>".to_string()],
                cc: vec![],
                bcc: vec![],
            },
        ],
    }
}

#[test]
fn email_recipients_subject_and_body() {
    let s = settings();
    let p = plan_email(&s, "/canvas/hr_training", Ok(b"{\"a\":1}")).unwrap();
    assert_eq!(p.to, vec!["A <a@x>", "E <e@x>"]);
    assert!(p.cc.is_empty());
    assert_eq!(p.bcc, vec!["B <b@x>"]);
    assert_eq!(p.subject, "Success Process: /canvas/hr_training");
    assert_eq!(p.body, "{\n  \"a\": 1\n}");
    assert_eq!(p.credentials, None);
    assert_eq!(p.from, "From <f@x>");
    let p = plan_email(&s, "/papercut/feed_workday_users", Ok(b"plain \xff text")).unwrap();
    assert_eq!(p.to, vec!["C <c@x>"]);
    assert_eq!(p.cc, vec!["D <d@x>"]);
    assert_eq!(p.body, "plain \u{FFFD} text");
    let p = plan_email(&s, "/x", Err("boom".to_string())).unwrap();
    assert!(p.to.is_empty());
    assert_eq!(p.subject, "Failed Process: /x");
    assert_eq!(p.body, "boom");
}

#[test]
fn email_credentials_and_bad_patterns() {
    let mut s = settings();
    s.smtp_password = Some("pw".to_string());
    let p = plan_email(&s, "/", Ok(b"")).unwrap();
    assert_eq!(p.credentials, Some(("l".to_string(), "pw".to_string())));
    s.replies[1].path = "(".to_string();
    assert!(matches!(plan_email(&s, "/", Ok(b"")), Err(EmailError::InvalidPattern(p)) if p == "("));
    assert!(should_mail(29999));
    assert!(!should_mail(30000));
    let d = EmailSettings::default();
    assert_eq!(d.replies.len(), 2);
    assert_eq!(d.replies[1].bcc, vec!["A BCC <b@address.tld>"]);
}

#[test]
fn banner_update_user_id_checks() {
    let mut s = BannerSettings::default();
    assert_eq!(s.check_update_user_id(), Ok(()));
    s.update_user_id = Some("".to_string());
    assert_eq!(s.check_update_user_id(), Err(BannerError::EmptyUpdateUserId));
    s.update_user_id = Some("abc_1".to_string());
    assert_eq!(s.check_update_user_id(), Err(BannerError::UpdateUserIdNotAlphanumeric));
    s.update_user_id = Some("Abc123".to_string());
    assert_eq!(s.check_update_user_id(), Ok(()));
    assert_eq!(s.conn, "//localhost:1521/orcl");
}

#[test]
fn log_levels_by_verbosity() {
    assert_eq!(max_level(0), LogLevel::Error);
    assert_eq!(max_level(1), LogLevel::Warn);
    assert_eq!(max_level(2), LogLevel::Info);
    assert_eq!(max_level(3), LogLevel::Debug);
    assert_eq!(max_level(9), LogLevel::Trace);
    assert!(!full_span_events(4));
    assert!(full_span_events(5));
}
