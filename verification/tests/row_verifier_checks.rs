use workday_sftp_rest_server::utils::csv::row_verifier::{Verifier, VerifierError};

fn record_struct(v: Verifier, fields: &[&str], skipped: &[&str]) -> Verifier {
    let mut v = v.serialize_struct().expect("a row is a struct");
    for f in fields {
        v.serialize_field(f);
    }
    for s in skipped {
        v.skip_field(s);
    }
    v
}

#[test]
fn rows_are_checked_against_the_first() {
    let v = record_struct(Verifier::new(), &["a", "b"], &["c"]);
    let mut v = v;
    v.reset_to_verify().expect("first row sets the reference");
    let mut v = record_struct(v, &["a", "b"], &["c"]);
    assert!(v.reset_to_verify().is_ok());
    let mut v = record_struct(v, &["a", "x"], &["c"]);
    match v.reset_to_verify() {
        Err(VerifierError::FieldsMismatch { expected, found }) => {
            assert_eq!(expected, vec!["a".to_string(), "b".to_string()]);
            assert_eq!(found, vec!["a".to_string(), "x".to_string()]);
        }
        other => panic!("unexpected {other:?}"),
    }
    // The refused row stays recorded.
    assert!(matches!(v.reset_to_verify(), Err(VerifierError::FieldsMismatch { .. })));
}

#[test]
fn skipped_fields_are_compared_too() {
    let mut v = record_struct(Verifier::new(), &["a"], &["s"]);
    v.reset_to_verify().unwrap();
    let mut v = record_struct(v, &["a"], &[]);
    assert!(matches!(v.reset_to_verify(), Err(VerifierError::SkippedFieldsMismatch { .. })));
}

#[test]
fn empty_first_row_is_refused() {
    let mut v = record_struct(Verifier::new(), &[], &["s"]);
    assert!(matches!(v.reset_to_verify(), Err(VerifierError::NoFieldsToVerify)));
}

#[test]
fn nested_values_are_refused() {
    let v = Verifier::new().serialize_struct().unwrap();
    assert!(matches!(v.serialize_struct(), Err(VerifierError::EmbeddedStruct)));
    let v = Verifier::new().serialize_map().unwrap();
    assert!(matches!(v.serialize_map(), Err(VerifierError::EmbeddedMap)));
    assert!(matches!(Verifier::new().serialize_str("x"), Err(VerifierError::Unsupported(k)) if k == "str"));
}

#[test]
fn map_keys_become_field_names() {
    let mut v = Verifier::new().serialize_map().unwrap();
    v.serialize_key(Verifier::key_verifier().serialize_str("col").unwrap()).unwrap();
    assert!(matches!(v.serialize_key(Verifier::key_verifier()), Err(VerifierError::NotAKey(n)) if n.is_empty()));
    v.reset_to_verify().unwrap();
    let mut v = v.serialize_map().unwrap();
    v.serialize_key(Verifier::key_verifier().serialize_str("col").unwrap()).unwrap();
    assert!(v.reset_to_verify().is_ok());
    let mut v = v.serialize_map().unwrap();
    v.serialize_key(Verifier::key_verifier().serialize_str("other").unwrap()).unwrap();
    assert!(v.reset_to_verify().is_err());
}

#[test]
fn every_row_is_checked_against_the_first() {
    let mut v = Verifier::new();
    for _ in 0..4 {
        v.serialize_field("id");
        v.serialize_field("name");
        v.skip_field("email");
        assert!(v.reset_to_verify().is_ok());
    }
    v.serialize_field("id");
    v.serialize_field("name");
    v.skip_field("phone");
    assert!(matches!(v.reset_to_verify(), Err(VerifierError::SkippedFieldsMismatch { .. })));
}
