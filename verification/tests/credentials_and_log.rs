use ccometixline::utils::credentials::{
    start_token_search, step_token_search, token_of, CredentialsFile, OAuthCredentials, TokenAction, TokenEvent,
    TokenState,
};
use ccometixline::utils::logger::{
    enable, format_clock, log_entry, log_line, needs_rotation, rotation_start, Logger, KEPT_LOG_SIZE, MAX_LOG_SIZE,
};

fn file_with(token: Option<&str>) -> CredentialsFile {
    CredentialsFile {
        claude_ai_oauth: token.map(|t| OAuthCredentials {
            access_token: t.to_string(),
            refresh_token: None,
            expires_at: Some(1),
            scopes: None,
            subscription_type: None,
        }),
    }
}

fn finished_with(r: (TokenState, TokenAction)) -> Option<String> {
    assert!(matches!(r.0, TokenState::Finished));
    match r.1 {
        TokenAction::Finish(t) => t,
        _ => panic!("expected the search to finish"),
    }
}

#[test]
fn token_from_file() {
    assert_eq!(token_of(Some(file_with(Some("abc")))).as_deref(), Some("abc"));
    assert_eq!(token_of(Some(file_with(None))), None);
    assert_eq!(token_of(None), None);
}

#[test]
fn keychain_entry_gives_token() {
    let (state, action) = start_token_search(true);
    assert!(matches!(action, TokenAction::QueryKeychain));
    let (state, action) = step_token_search(state, TokenEvent::KeychainAnswered(Some(b"  {\"x\":1}\n".to_vec())));
    match &action {
        TokenAction::ParseKeychainEntry(t) => assert_eq!(t, "{\"x\":1}"),
        _ => panic!("expected the entry to be parsed"),
    }
    let r = step_token_search(state, TokenEvent::EntryParsed(Some(file_with(Some("k")))));
    assert_eq!(finished_with(r).as_deref(), Some("k"));
}

#[test]
fn keychain_answer_never_falls_back() {
    let (state, _) = start_token_search(true);
    let r = step_token_search(state, TokenEvent::KeychainAnswered(Some(b" \n".to_vec())));
    assert_eq!(finished_with(r), None);
    let (state, _) = start_token_search(true);
    let (state, _) = step_token_search(state, TokenEvent::KeychainAnswered(Some(b"junk".to_vec())));
    let r = step_token_search(state, TokenEvent::EntryParsed(None));
    assert_eq!(finished_with(r), None);
    let (state, _) = start_token_search(true);
    let (state, _) = step_token_search(state, TokenEvent::KeychainAnswered(Some(b"{}".to_vec())));
    let r = step_token_search(state, TokenEvent::EntryParsed(Some(file_with(None))));
    assert_eq!(finished_with(r), None);
}

#[test]
fn failed_keychain_reads_files() {
    let (state, _) = start_token_search(true);
    let (state, action) = step_token_search(state, TokenEvent::KeychainAnswered(None));
    assert!(matches!(action, TokenAction::ReadConfigDirFile));
    let (state, action) = step_token_search(state, TokenEvent::FileRead(None));
    assert!(matches!(action, TokenAction::ReadDefaultFile));
    let r = step_token_search(state, TokenEvent::FileRead(Some(file_with(Some("home")))));
    assert_eq!(finished_with(r).as_deref(), Some("home"));
}

#[test]
fn config_dir_token_wins() {
    let (state, action) = start_token_search(false);
    assert!(matches!(action, TokenAction::ReadConfigDirFile));
    let r = step_token_search(state, TokenEvent::FileRead(Some(file_with(Some("dir")))));
    assert_eq!(finished_with(r).as_deref(), Some("dir"));
}

#[test]
fn config_dir_without_token_reads_default() {
    let (state, _) = start_token_search(false);
    let (state, action) = step_token_search(state, TokenEvent::FileRead(Some(file_with(None))));
    assert!(matches!(action, TokenAction::ReadDefaultFile));
    let r = step_token_search(state, TokenEvent::FileRead(None));
    assert_eq!(finished_with(r), None);
}

#[test]
fn unexpected_token_event_ends_search() {
    let r = step_token_search(TokenState::AwaitingDefaultFile, TokenEvent::KeychainAnswered(None));
    assert_eq!(finished_with(r), None);
}

#[test]
fn logger_switch() {
    let mut logger = Logger::new();
    assert!(!logger.enabled());
    assert_eq!(log_entry(&logger, "t", "m", 0), None);
    enable(&mut logger);
    assert!(logger.enabled());
    assert_eq!(log_entry(&logger, "usage", "hello", 3661).as_deref(), Some("[01:01:01] [usage] hello\n"));
}

#[test]
fn clock_texts() {
    assert_eq!(format_clock(0), "00:00:00");
    assert_eq!(format_clock(86399), "23:59:59");
    assert_eq!(format_clock(86400 + 45296), "12:34:56");
    assert_eq!(format_clock(u64::MAX), "07:00:15");
    assert_eq!(log_line("a", "", 59), "[00:00:59] [a] \n");
}

#[test]
fn rotation_threshold() {
    assert_eq!(MAX_LOG_SIZE, 512 * 1024);
    assert!(!needs_rotation(512 * 1024));
    assert!(needs_rotation(512 * 1024 + 1));
    assert!(!needs_rotation(0));
}

#[test]
fn rotation_keeps_whole_lines() {
    assert_eq!(KEPT_LOG_SIZE, 256 * 1024);
    let small = b"abc\ndef\n".to_vec();
    assert_eq!(rotation_start(&small), 4);
    let mut big = vec![b'x'; 300 * 1024];
    let keep_from = big.len() - 256 * 1024;
    big[keep_from + 10] = b'\n';
    big[keep_from + 20] = b'\n';
    big[keep_from - 1] = b'\n';
    assert_eq!(rotation_start(&big), keep_from + 11);
    let no_newline = vec![b'y'; 300 * 1024];
    assert_eq!(rotation_start(&no_newline), 300 * 1024 - 256 * 1024);
    assert_eq!(rotation_start(&[]), 0);
    assert_eq!(rotation_start(b"no newline"), 0);
}
