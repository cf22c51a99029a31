use foundry_client::error::{CommandError, FoundryClientError};
use foundry_client::text::{join2, join3, decimal, signed_decimal, str_eq};

#[test]
fn client_errors_say_what_happened() {
    assert_eq!(
        FoundryClientError::FailedInit("anything".to_string()).message(),
        "Manual initialization of Foundry Client failed"
    );
    assert_eq!(
        FoundryClientError::URLError("empty host".to_string()).message(),
        "Provided host empty host was unable to be parsed as a url"
    );
    assert_eq!(
        FoundryClientError::JoinError("refused".to_string()).message(),
        "HTTP Connection error: refused"
    );
    assert_eq!(
        FoundryClientError::SessionError.message(),
        "Join endpoint did not set a session cookie"
    );
    assert_eq!(
        FoundryClientError::SocketError("closed".to_string()).message(),
        "Socket Connection error: closed"
    );
    assert_eq!(
        FoundryClientError::TimeoutError("getJoinData".to_string()).message(),
        "No acknowledgement of getJoinData within its timeout"
    );
    assert_eq!(
        FoundryClientError::NoUserError("Carol".to_string()).message(),
        "Failed to login as user: Carol"
    );
    assert_eq!(FoundryClientError::AuthError(401).message(), "Login rejected with status 401");
    assert_eq!(
        FoundryClientError::MalformedData { path: "users".to_string(), value: "null".to_string() }
            .message(),
        "Failed to parse initial userdata: users within null is not formatted as expected - perhaps a version incompatibility?"
    );
}

#[test]
fn command_errors_say_what_happened() {
    assert_eq!(
        CommandError::CharacterNotFound("Mira".to_string()).message(),
        "No actor named 'Mira' found. Be careful about case sensitivity"
    );
    assert_eq!(
        CommandError::MissingAssocChar.message(),
        "You must first /assoc with a character name in the foundry world"
    );
    assert_eq!(
        CommandError::InvalidAssocChar.message(),
        "Your currently associated character is invalid/deleted. /assoc with a new character in the foundry world"
    );
    assert_eq!(
        CommandError::InvalidAttribute("luck".to_string()).message(),
        "The attribute you tried to roll (luck) was not recognized"
    );
}

#[test]
fn decimal_writes_natural_numbers() {
    assert_eq!(decimal(0), "0");
    assert_eq!(decimal(7), "7");
    assert_eq!(decimal(10), "10");
    assert_eq!(decimal(409), "409");
    assert_eq!(decimal(1_000_000), "1000000");
    assert_eq!(decimal(u64::MAX), "18446744073709551615");
}

#[test]
fn signed_decimal_writes_a_minus_sign() {
    assert_eq!(signed_decimal(0), "0");
    assert_eq!(signed_decimal(15), "15");
    assert_eq!(signed_decimal(-1), "-1");
    assert_eq!(signed_decimal(-120), "-120");
    assert_eq!(signed_decimal(i64::MAX), "9223372036854775807");
    assert_eq!(signed_decimal(i64::MIN), "-9223372036854775808");
}

#[test]
fn str_eq_compares_characters() {
    assert!(str_eq("", ""));
    assert!(str_eq("session", "session"));
    assert!(!str_eq("session", "Session"));
    assert!(!str_eq("session", "sessions"));
    assert!(!str_eq("a", ""));
    assert!(str_eq("gr\u{fc}n", "gr\u{fc}n"));
    assert!(!str_eq("gr\u{fc}n", "grun"));
}

#[test]
fn joins_keep_the_order() {
    assert_eq!(join2("ab", "cd"), "abcd");
    assert_eq!(join2("", "x"), "x");
    assert_eq!(join2("x", ""), "x");
    assert_eq!(join3("a", "-", "b"), "a-b");
    assert_eq!(join3("", "", ""), "");
}
