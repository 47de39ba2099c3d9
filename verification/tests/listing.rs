//! The decode-and-collect pass of the listing operation: order kept, and a
//! single undecodable name failing the whole call with the fixed message.

use ex_attr::errors::{Classification, ErrorTag, OsFailure};
use ex_attr::gateway::finish_list;
use ex_attr::listing::{collect_names, decode_failure_message};
use rustix::io::Errno;

#[test]
fn all_decoded_names_are_kept_in_order() {
    let raw = vec![
        Some("user.a".to_string()),
        Some("user.b".to_string()),
        Some("user.c".to_string()),
    ];
    let names = collect_names(raw).unwrap();
    assert_eq!(names, vec!["user.a", "user.b", "user.c"]);
}

#[test]
fn an_empty_listing_stays_empty() {
    let names = collect_names(Vec::new()).unwrap();
    assert!(names.is_empty());
}

#[test]
fn one_undecodable_name_fails_the_whole_listing() {
    let raw = vec![
        Some("user.a".to_string()),
        None,
        Some("user.b".to_string()),
    ];
    let failure = collect_names(raw).unwrap_err();
    assert_eq!(
        failure,
        Classification::Message("Failed to convert OsString".to_string())
    );
}

#[test]
fn the_decode_failure_message_is_fixed() {
    assert_eq!(decode_failure_message(), "Failed to convert OsString");
}

#[test]
fn a_failed_listing_call_is_classified() {
    let outcome: Result<Vec<Option<String>>, OsFailure> = Err(OsFailure {
        code: Some(Errno::NOENT.raw_os_error()),
        unsupported: false,
        message: "no such file".to_string(),
    });
    assert_eq!(
        finish_list(outcome),
        Err(Classification::Tag(ErrorTag::Enoent))
    );
}

#[test]
fn a_successful_listing_goes_through_the_decode_pass() {
    let outcome: Result<Vec<Option<String>>, OsFailure> =
        Ok(vec![Some("user.x".to_string()), None]);
    assert_eq!(
        finish_list(outcome),
        Err(Classification::Message(
            "Failed to convert OsString".to_string()
        ))
    );
    let ok_outcome: Result<Vec<Option<String>>, OsFailure> =
        Ok(vec![Some("user.x".to_string())]);
    assert_eq!(finish_list(ok_outcome), Ok(vec!["user.x".to_string()]));
}
