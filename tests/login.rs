use zero_to_prod::authentication::{reject_anonymous_users, AccessDecision};
use zero_to_prod::login::{log_out, login, login_redirect, FormData, LoginError};
use zero_to_prod::render::render_flash;
use zero_to_prod::sessions::{FlashSlot, SessionStore};
use zero_to_prod::users::{AuthError, CredentialStore, FALLBACK_PASSWORD_HASH};

fn hash_of(password: &str) -> String {
    format!("hash:{}", password)
}

fn verifies(creds: &CredentialStore, username: &str, password: &str) -> bool {
    creds.expected_password_hash(&username.to_string()) == hash_of(password)
}

fn store_with_test_user() -> CredentialStore {
    let mut creds = CredentialStore::new();
    assert!(creds.add_user(7, "ursula".to_string(), hash_of("everfree")));
    creds
}

fn form(username: &str, password: &str) -> FormData {
    FormData { username: username.to_string(), password: password.to_string() }
}

fn attempt(
    creds: &CredentialStore,
    sessions: &mut SessionStore,
    flash: &mut FlashSlot,
    username: &str,
    password: &str,
    candidate: u128,
) -> Result<u128, LoginError> {
    let f = form(username, password);
    let ok = verifies(creds, &f.username, &f.password);
    login(creds, sessions, flash, &f, ok, candidate, None)
}

#[test]
fn an_error_flash_message_is_set_on_failure() {
    let creds = store_with_test_user();
    let mut sessions = SessionStore::new();
    let mut flash = FlashSlot::new();

    let r = attempt(&creds, &mut sessions, &mut flash, "random-username", "random-password", 1);
    assert_eq!(r, Err(LoginError::AuthError));
    let response = login_redirect(&r);
    assert_eq!(response.location, "/login");
    assert_eq!(response.status_code(), 303);

    let html_page = render_flash(&mut flash);
    assert!(html_page.contains(r#"<p><i>Authentication failed</i></p>"#));

    let html_page = render_flash(&mut flash);
    assert!(!html_page.contains(r#"<p><i>Authentication failed</i></p>"#));
}

#[test]
fn valid_credentials_establish_a_session() {
    let creds = store_with_test_user();
    let mut sessions = SessionStore::new();
    let mut flash = FlashSlot::new();
    let r = attempt(&creds, &mut sessions, &mut flash, "ursula", "everfree", 42);
    assert_eq!(r, Ok(42));
    assert_eq!(login_redirect(&r).location, "/admin/dashboard");
    assert_eq!(sessions.resolve(42), Some(7));
    assert_eq!(render_flash(&mut flash), "");
}

#[test]
fn a_second_login_gets_a_fresh_session_id() {
    let creds = store_with_test_user();
    let mut sessions = SessionStore::new();
    let mut flash = FlashSlot::new();
    assert_eq!(attempt(&creds, &mut sessions, &mut flash, "ursula", "everfree", 42), Ok(42));
    // A reused id is refused even though its session has ended.
    sessions.destroy_session(42);
    let r = attempt(&creds, &mut sessions, &mut flash, "ursula", "everfree", 42);
    assert_eq!(r, Err(LoginError::UnexpectedError));
    assert_eq!(render_flash(&mut flash), "<p><i>Something went wrong</i></p>");
    assert_eq!(attempt(&creds, &mut sessions, &mut flash, "ursula", "everfree", 43), Ok(43));
    assert_eq!(sessions.resolve(43), Some(7));
    assert_eq!(sessions.resolve(42), None);
}

#[test]
fn login_ends_the_session_the_request_came_with() {
    let creds = store_with_test_user();
    let mut sessions = SessionStore::new();
    let mut flash = FlashSlot::new();
    assert_eq!(attempt(&creds, &mut sessions, &mut flash, "ursula", "everfree", 5), Ok(5));
    let f = form("ursula", "everfree");
    let r = login(&creds, &mut sessions, &mut flash, &f, true, 6, Some(5));
    assert_eq!(r, Ok(6));
    assert_eq!(sessions.resolve(5), None);
    assert_eq!(sessions.resolve(6), Some(7));
}

#[test]
fn wrong_password_is_invalid_credentials() {
    let creds = store_with_test_user();
    assert!(!verifies(&creds, "ursula", "wrong"));
    assert_eq!(creds.authenticate(&"ursula".to_string(), false), Err(AuthError::InvalidCredentials));
    let mut sessions = SessionStore::new();
    let mut flash = FlashSlot::new();
    let r = attempt(&creds, &mut sessions, &mut flash, "ursula", "wrong", 9);
    assert_eq!(r, Err(LoginError::AuthError));
    assert_eq!(sessions.resolve(9), None);
}

#[test]
fn unknown_username_is_checked_against_the_fallback_hash() {
    let creds = store_with_test_user();
    assert_eq!(creds.expected_password_hash(&"nobody".to_string()), FALLBACK_PASSWORD_HASH);
    assert_eq!(creds.expected_password_hash(&"ursula".to_string()), hash_of("everfree"));
    assert_eq!(creds.authenticate(&"nobody".to_string(), true), Err(AuthError::InvalidCredentials));
    assert_eq!(creds.authenticate(&"Ursula".to_string(), true), Err(AuthError::InvalidCredentials));
    assert_eq!(creds.authenticate(&"ursula".to_string(), true), Ok(7));
}

#[test]
fn duplicate_accounts_are_refused() {
    let mut creds = store_with_test_user();
    assert!(!creds.add_user(8, "ursula".to_string(), hash_of("x")));
    assert!(!creds.add_user(7, "other".to_string(), hash_of("x")));
    assert!(creds.add_user(8, "other".to_string(), hash_of("x")));
}

#[test]
fn login_error_messages_and_status() {
    assert_eq!(LoginError::AuthError.message(), "Authentication failed");
    assert_eq!(LoginError::UnexpectedError.message(), "Something went wrong");
    assert_eq!(LoginError::AuthError.status_code(), 303);
    assert_eq!(LoginError::from_auth_error(AuthError::UnexpectedError), LoginError::UnexpectedError);
    assert_eq!(LoginError::from_auth_error(AuthError::InvalidCredentials), LoginError::AuthError);
}

#[test]
fn logout_without_a_session_changes_nothing() {
    let mut sessions = SessionStore::new();
    let mut flash = FlashSlot::new();
    let r = log_out(&mut sessions, &mut flash, None);
    assert_eq!(r.location, "/login");
    assert_eq!(r.status_code(), 303);
    assert_eq!(render_flash(&mut flash), "");
    assert_eq!(reject_anonymous_users(&sessions, Some(3)), AccessDecision::RedirectToLogin);
}

#[test]
fn a_failed_login_keeps_the_current_session() {
    let creds = store_with_test_user();
    let mut sessions = SessionStore::new();
    let mut flash = FlashSlot::new();
    assert_eq!(attempt(&creds, &mut sessions, &mut flash, "ursula", "everfree", 5), Ok(5));
    let f = form("ursula", "wrong");
    assert_eq!(login(&creds, &mut sessions, &mut flash, &f, false, 6, Some(5)), Err(LoginError::AuthError));
    assert_eq!(sessions.resolve(5), Some(7));
    assert_eq!(sessions.resolve(6), None);
    assert!(!sessions.is_issued(6));
}
