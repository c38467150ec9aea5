use snippets_app::logging::LogSettings;

#[test]
fn missing_values_take_the_defaults() {
    let s = LogSettings::from_values(None, None);
    assert_eq!(s.level, "info");
    assert_eq!(s.path, "snippets-app.log");
}

#[test]
fn given_values_are_kept() {
    let s = LogSettings::from_values(Some("debug".to_string()), Some("/tmp/x/log.txt".to_string()));
    assert_eq!(s.level, "debug");
    assert_eq!(s.path, "/tmp/x/log.txt");
}
