use snippets_app::cli::{command_from_options, Command, CommandError};

fn some(s: &str) -> Option<String> {
    Some(s.to_string())
}

#[test]
fn download_needs_a_name() {
    assert_eq!(
        command_from_options(None, None, None, some("http://x/raw")).unwrap_err(),
        CommandError::DownloadWithoutName
    );
    assert_eq!(
        command_from_options(None, some("r"), some("d"), some("http://x/raw")).unwrap_err(),
        CommandError::DownloadWithoutName
    );
}

#[test]
fn name_wins_over_read_and_delete() {
    match command_from_options(some("n"), some("r"), some("d"), some("u")).unwrap() {
        Command::Create { name, download } => {
            assert_eq!(name, "n");
            assert_eq!(download.as_deref(), Some("u"));
        }
        other => panic!("unexpected {:?}", other),
    }
    match command_from_options(some("n"), None, None, None).unwrap() {
        Command::Create { name, download } => {
            assert_eq!(name, "n");
            assert!(download.is_none());
        }
        other => panic!("unexpected {:?}", other),
    }
}

#[test]
fn read_wins_over_delete() {
    match command_from_options(None, some("r"), some("d"), None).unwrap() {
        Command::Read(n) => assert_eq!(n, "r"),
        other => panic!("unexpected {:?}", other),
    }
    match command_from_options(None, None, some("d"), None).unwrap() {
        Command::Delete(n) => assert_eq!(n, "d"),
        other => panic!("unexpected {:?}", other),
    }
}

#[test]
fn no_option_lists() {
    assert!(matches!(command_from_options(None, None, None, None).unwrap(), Command::List));
}
