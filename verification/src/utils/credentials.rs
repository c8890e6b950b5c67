//! Finding the OAuth token of the coding assistant's login: from the macOS
//! keychain, else from the credentials file in the configuration directory
//! that the environment names, else from the default credentials file in
//! the home directory.
//!
//! The search is a sequence of reads that the caller performs; this module
//! decides, from what each read gave, what to read next and which token
//! results.
use vstd::prelude::*;
use crate::utils::text::{decode_lossy, trim, trimmed, utf8_lossy};

verus! {

/// The OAuth entry of a credentials file.
pub struct OAuthCredentials {
    pub access_token: String,
    pub refresh_token: Option<String>,
    pub expires_at: Option<u64>,
    pub scopes: Option<Vec<String>>,
    pub subscription_type: Option<String>,
}

/// A credentials file (or keychain entry), as parsed from its JSON.
pub struct CredentialsFile {
    pub claude_ai_oauth: Option<OAuthCredentials>,
}

/// The token a credentials file holds, if any.
pub open spec fn file_token(file: Option<CredentialsFile>) -> Option<String> {
    match file {
        Some(f) => match f.claude_ai_oauth {
            Some(o) => Some(o.access_token),
            None => None,
        },
        None => None,
    }
}

/// Where a token search stands.
pub enum TokenState {
    /// The keychain is being asked.
    AwaitingKeychain,
    /// The keychain's entry is being parsed.
    AwaitingKeychainEntry,
    /// The configuration directory's credentials file is being read.
    AwaitingConfigDirFile,
    /// The default credentials file is being read.
    AwaitingDefaultFile,
    /// The search is over.
    Finished,
}

/// What the search asks of its caller next.
pub enum TokenAction {
    /// Ask the keychain for the stored credentials entry and report
    /// `KeychainAnswered`.
    QueryKeychain,
    /// Parse this text as a credentials file and report `EntryParsed`.
    ParseKeychainEntry(String),
    /// Read and parse the credentials file of the configuration directory
    /// that the environment names (nothing when it names none) and report
    /// `FileRead`.
    ReadConfigDirFile,
    /// Read and parse the default credentials file under the home
    /// directory (nothing when the home directory is unknown) and report
    /// `FileRead`.
    ReadDefaultFile,
    /// Stop with this token, or with none.
    Finish(Option<String>),
}

/// What the caller reports back.
pub enum TokenEvent {
    /// What the keychain command printed, or `None` when it could not run
    /// or failed.
    KeychainAnswered(Option<Vec<u8>>),
    /// The parsed keychain entry, or `None` when it did not parse.
    EntryParsed(Option<CredentialsFile>),
    /// The parsed credentials file, or `None` when it is missing,
    /// unreadable or does not parse.
    FileRead(Option<CredentialsFile>),
}

/// How many more steps a search takes from a state.
pub open spec fn token_steps_left(state: TokenState) -> nat {
    match state {
        TokenState::AwaitingKeychain => 3,
        TokenState::AwaitingKeychainEntry => 1,
        TokenState::AwaitingConfigDirFile => 2,
        TokenState::AwaitingDefaultFile => 1,
        TokenState::Finished => 0,
    }
}

/// `r` is the step of a token search from `state` on `event`.
pub open spec fn token_step_ok(state: TokenState, event: TokenEvent, r: (TokenState, TokenAction)) -> bool {
    match (state, event) {
        (TokenState::AwaitingKeychain, TokenEvent::KeychainAnswered(answer)) => match answer {
            None => r.0 == TokenState::AwaitingConfigDirFile && r.1 is ReadConfigDirFile,
            Some(out) => {
                let text = trim(utf8_lossy(out@));
                if text.len() == 0 {
                    r.0 == TokenState::Finished && r.1 == TokenAction::Finish(None)
                } else {
                    &&& r.0 == TokenState::AwaitingKeychainEntry
                    &&& r.1 matches TokenAction::ParseKeychainEntry(t) && t@ == text
                }
            },
        },
        (TokenState::AwaitingKeychainEntry, TokenEvent::EntryParsed(entry)) => {
            r.0 == TokenState::Finished && r.1 == TokenAction::Finish(file_token(entry))
        },
        (TokenState::AwaitingConfigDirFile, TokenEvent::FileRead(file)) => {
            if file_token(file) is Some {
                r.0 == TokenState::Finished && r.1 == TokenAction::Finish(file_token(file))
            } else {
                r.0 == TokenState::AwaitingDefaultFile && r.1 is ReadDefaultFile
            }
        },
        (TokenState::AwaitingDefaultFile, TokenEvent::FileRead(file)) => {
            r.0 == TokenState::Finished && r.1 == TokenAction::Finish(file_token(file))
        },
        _ => r.0 == TokenState::Finished && r.1 == TokenAction::Finish(None),
    }
}

/// The token a credentials file holds, if any.
pub fn token_of(file: Option<CredentialsFile>) -> (r: Option<String>)
    ensures
        r == file_token(file),
{
    match file {
        Some(f) => match f.claude_ai_oauth {
            Some(o) => Some(o.access_token),
            None => None,
        },
        None => None,
    }
}

/// Starts a token search: on macOS with the keychain, elsewhere with the
/// credentials files.
pub fn start_token_search(on_macos: bool) -> (r: (TokenState, TokenAction))
    ensures
        on_macos ==> r.0 == TokenState::AwaitingKeychain && r.1 is QueryKeychain,
        !on_macos ==> r.0 == TokenState::AwaitingConfigDirFile && r.1 is ReadConfigDirFile,
{
    if on_macos {
        (TokenState::AwaitingKeychain, TokenAction::QueryKeychain)
    } else {
        (TokenState::AwaitingConfigDirFile, TokenAction::ReadConfigDirFile)
    }
}

/// One step of a token search. A keychain that answers decides the
/// search, whatever its entry holds; only a keychain that cannot be asked
/// sends the search on to the files. The configuration directory's file
/// is read first, and the default file only when it gives no token.
pub fn step_token_search(state: TokenState, event: TokenEvent) -> (r: (TokenState, TokenAction))
    ensures
        token_step_ok(state, event, r),
        match (state, event) {
            (TokenState::AwaitingKeychain, TokenEvent::KeychainAnswered(Some(out))) => {
                let text = trim(vstd::utf8::decode_utf8(out@));
                vstd::utf8::valid_utf8(out@) ==> if text.len() == 0 {
                    r.1 == TokenAction::Finish(None)
                } else {
                    r.1 matches TokenAction::ParseKeychainEntry(t) && t@ == text
                }
            },
            _ => true,
        },
{
    match (state, event) {
        (TokenState::AwaitingKeychain, TokenEvent::KeychainAnswered(answer)) => match answer {
            None => (TokenState::AwaitingConfigDirFile, TokenAction::ReadConfigDirFile),
            Some(out) => {
                let decoded = decode_lossy(out.as_slice());
                let text = trimmed(decoded.as_str());
                if text.as_str().unicode_len() == 0 {
                    (TokenState::Finished, TokenAction::Finish(None))
                } else {
                    (TokenState::AwaitingKeychainEntry, TokenAction::ParseKeychainEntry(text))
                }
            },
        },
        (TokenState::AwaitingKeychainEntry, TokenEvent::EntryParsed(entry)) => {
            (TokenState::Finished, TokenAction::Finish(token_of(entry)))
        },
        (TokenState::AwaitingConfigDirFile, TokenEvent::FileRead(file)) => {
            let token = token_of(file);
            if token.is_some() {
                (TokenState::Finished, TokenAction::Finish(token))
            } else {
                (TokenState::AwaitingDefaultFile, TokenAction::ReadDefaultFile)
            }
        },
        (TokenState::AwaitingDefaultFile, TokenEvent::FileRead(file)) => {
            (TokenState::Finished, TokenAction::Finish(token_of(file)))
        },
        _ => (TokenState::Finished, TokenAction::Finish(None)),
    }
}

/// Every step of a search that has not finished brings it closer to its
/// end, and a step finishes exactly when it ends the search: a search asks
/// for at most three reads.
pub proof fn law_token_search_terminates(state: TokenState, event: TokenEvent, r: (TokenState, TokenAction))
    requires
        token_step_ok(state, event, r),
    ensures
        state != TokenState::Finished ==> token_steps_left(r.0) < token_steps_left(state),
        (r.1 is Finish) <==> (r.0 == TokenState::Finished),
{
}

/// A keychain that answers is never passed over for the files.
pub proof fn law_keychain_answer_is_final(out: Vec<u8>, r: (TokenState, TokenAction))
    requires
        token_step_ok(TokenState::AwaitingKeychain, TokenEvent::KeychainAnswered(Some(out)), r),
    ensures
        !(r.1 is ReadConfigDirFile),
        !(r.1 is ReadDefaultFile),
{
}

/// The token a credentials file gives is the access token of its OAuth
/// entry, whatever its refresh token, expiry, scopes and subscription say;
/// a file without an OAuth entry gives none.
pub proof fn law_token_is_the_access_token(file: Option<CredentialsFile>, r: Option<String>)
    requires
        r == file_token(file),
    ensures
        match file {
            Some(f) => match f.claude_ai_oauth {
                Some(o) => r == Some(o.access_token),
                None => r is None,
            },
            None => r is None,
        },
{
}

/// Two credentials files whose OAuth entries hold the same access token
/// give the same token, however the rest of the entries differ.
pub proof fn law_token_ignores_the_rest_of_the_entry(
    a: OAuthCredentials,
    b: OAuthCredentials,
    ra: Option<String>,
    rb: Option<String>,
)
    requires
        a.access_token == b.access_token,
        ra == file_token(Some(CredentialsFile { claude_ai_oauth: Some(a) })),
        rb == file_token(Some(CredentialsFile { claude_ai_oauth: Some(b) })),
    ensures
        ra == rb,
        ra == Some(a.access_token),
{
}

/// Wherever the login is found (the keychain's entry, the configuration
/// directory's file, or the default file), the search ends with the
/// access token of its OAuth entry.
pub proof fn law_search_ends_with_the_access_token(
    state: TokenState,
    file: CredentialsFile,
    o: OAuthCredentials,
    r: (TokenState, TokenAction),
)
    requires
        file.claude_ai_oauth == Some(o),
        state == TokenState::AwaitingKeychainEntry && token_step_ok(state, TokenEvent::EntryParsed(Some(file)), r)
            || (state == TokenState::AwaitingConfigDirFile || state == TokenState::AwaitingDefaultFile)
            && token_step_ok(state, TokenEvent::FileRead(Some(file)), r),
    ensures
        r.1 == TokenAction::Finish(Some(o.access_token)),
        r.0 == TokenState::Finished,
{
}

/// A token found in the configuration directory's file ends the search
/// with that token; the default file is not read.
pub proof fn law_config_dir_token_wins(file: Option<CredentialsFile>, r: (TokenState, TokenAction))
    requires
        token_step_ok(TokenState::AwaitingConfigDirFile, TokenEvent::FileRead(file), r),
        file_token(file) is Some,
    ensures
        r.1 == TokenAction::Finish(file_token(file)),
{
}

} // verus!
