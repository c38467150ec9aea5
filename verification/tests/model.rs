use snippets_app::jsonrpc::RequestId;
use snippets_app::model::{current_unix_time, unix_time_from_elapsed, Snippet, SnippetError};

#[test]
fn elapsed_seconds_become_a_timestamp() {
    assert_eq!(unix_time_from_elapsed(Some(0)), Ok(0));
    assert_eq!(unix_time_from_elapsed(Some(1_700_000_000)), Ok(1_700_000_000));
    assert_eq!(unix_time_from_elapsed(Some(i64::MAX as u64)), Ok(i64::MAX));
}

#[test]
fn clock_errors_are_reported() {
    assert_eq!(unix_time_from_elapsed(None), Err(SnippetError::ClockBeforeEpoch));
    assert_eq!(unix_time_from_elapsed(Some(i64::MAX as u64 + 1)), Err(SnippetError::TimestampOverflow));
    assert_eq!(unix_time_from_elapsed(Some(u64::MAX)), Err(SnippetError::TimestampOverflow));
}

#[test]
fn current_time_is_after_2020() {
    let now = current_unix_time().unwrap();
    assert!(now > 1_577_836_800);
}

#[test]
fn new_snippet_keeps_its_fields_and_is_stamped() {
    let s = Snippet::new(7, "title".to_string(), "code".to_string()).unwrap();
    assert_eq!(s.id, 7);
    assert_eq!(s.title, "title");
    assert_eq!(s.code, "code");
    assert!(s.created_at > 1_577_836_800);
}

#[test]
fn request_ids_hold_their_values() {
    assert!(matches!(RequestId::Num(1), RequestId::Num(1)));
    match RequestId::Str("abc".to_string()) {
        RequestId::Str(s) => assert_eq!(s, "abc"),
        _ => panic!("wrong variant"),
    }
    assert!(matches!(RequestId::Null, RequestId::Null));
}
