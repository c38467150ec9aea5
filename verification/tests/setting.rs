use snippets_app::storage::setting::{
    storage_target_from_setting, target_for_provider, StorageSettingError, StorageTarget,
};

fn target_of(s: &str) -> Result<StorageTarget, StorageSettingError> {
    storage_target_from_setting(Some(s.to_string()))
}

#[test]
fn json_setting_names_the_json_storage() {
    match target_of("JSON:./data/snippets.json") {
        Ok(StorageTarget::Json(p)) => assert_eq!(p, "./data/snippets.json"),
        other => panic!("unexpected {:?}", other),
    }
}

#[test]
fn provider_is_trimmed_and_case_insensitive() {
    match target_of("  sqlite\t:./data/snippets.db") {
        Ok(StorageTarget::Sqlite(p)) => assert_eq!(p, "./data/snippets.db"),
        other => panic!("unexpected {:?}", other),
    }
    match target_of("Json: spaced path ") {
        Ok(StorageTarget::Json(p)) => assert_eq!(p, " spaced path "),
        other => panic!("unexpected {:?}", other),
    }
}

#[test]
fn upper_casing_follows_unicode() {
    // U+0131 (dotless i) upper-cases to 'I'.
    match target_of("sql\u{131}te:db") {
        Ok(StorageTarget::Sqlite(p)) => assert_eq!(p, "db"),
        other => panic!("unexpected {:?}", other),
    }
}

#[test]
fn setting_splits_at_the_first_colon() {
    match target_of("json:C:/data/s.json") {
        Ok(StorageTarget::Json(p)) => assert_eq!(p, "C:/data/s.json"),
        other => panic!("unexpected {:?}", other),
    }
    match target_of("JSON:") {
        Ok(StorageTarget::Json(p)) => assert_eq!(p, ""),
        other => panic!("unexpected {:?}", other),
    }
}

#[test]
fn unknown_provider_is_reported_trimmed_and_upper_cased() {
    match target_of(" xml :p") {
        Err(StorageSettingError::UnknownProvider(name)) => assert_eq!(name, "XML"),
        other => panic!("unexpected {:?}", other),
    }
    match target_of(":p") {
        Err(StorageSettingError::UnknownProvider(name)) => assert_eq!(name, ""),
        other => panic!("unexpected {:?}", other),
    }
}

#[test]
fn setting_without_colon_or_missing_is_refused() {
    assert!(matches!(target_of("JSON"), Err(StorageSettingError::MissingSeparator)));
    assert!(matches!(target_of(""), Err(StorageSettingError::MissingSeparator)));
    assert!(matches!(storage_target_from_setting(None), Err(StorageSettingError::NotSet)));
}

#[test]
fn provider_names_are_matched_exactly() {
    assert!(matches!(target_for_provider("JSON".to_string(), "p"), Ok(StorageTarget::Json(_))));
    assert!(matches!(target_for_provider("SQLITE".to_string(), "p"), Ok(StorageTarget::Sqlite(_))));
    assert!(matches!(
        target_for_provider("json".to_string(), "p"),
        Err(StorageSettingError::UnknownProvider(_))
    ));
    assert!(matches!(
        target_for_provider("JSONX".to_string(), "p"),
        Err(StorageSettingError::UnknownProvider(_))
    ));
}
