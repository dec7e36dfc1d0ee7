use argon2::password_hash::SaltString;
use argon2::{Algorithm, Argon2, Params, PasswordHasher, Version};
use zero_to_prod::login::{log_out, login_redirect, login_with_password, FormData, LoginError};
use zero_to_prod::password::{change_password, submit_password_change, ChangePasswordError};
use zero_to_prod::render::render_flash;
use zero_to_prod::sessions::{FlashSlot, SessionStore};
use zero_to_prod::users::CredentialStore;

fn hash_of(password: &str) -> String {
    let params = Params::new(64, 1, 1, None).unwrap();
    let salt = SaltString::generate(&mut rand::thread_rng());
    Argon2::new(Algorithm::Argon2id, Version::V0x13, params)
        .hash_password(password.as_bytes(), &salt)
        .unwrap()
        .to_string()
}

struct TestApp {
    creds: CredentialStore,
    sessions: SessionStore,
    flash: FlashSlot,
    user_id: u64,
    username: String,
    password: String,
    next_session: u128,
}

impl TestApp {
    fn spawn() -> TestApp {
        let mut creds = CredentialStore::new();
        assert!(creds.add_user(3, "test-user".to_string(), hash_of("initial-password")));
        TestApp {
            creds,
            sessions: SessionStore::new(),
            flash: FlashSlot::new(),
            user_id: 3,
            username: "test-user".to_string(),
            password: "initial-password".to_string(),
            next_session: 1000,
        }
    }

    fn post_login(&mut self, username: &str, password: &str) -> Result<u128, LoginError> {
        let form = FormData { username: username.to_string(), password: password.to_string() };
        self.next_session += 1;
        login_with_password(&self.creds, &mut self.sessions, &mut self.flash, &form, self.next_session, None)
    }

    fn post_change_password(&mut self, session: Option<u128>, current: &str, new: &str, check: &str) -> String {
        let r = submit_password_change(
            &mut self.creds,
            &self.sessions,
            &mut self.flash,
            session,
            &current.to_string(),
            &new.to_string(),
            &check.to_string(),
            hash_of(new),
        );
        r.unwrap().location
    }
}

#[test]
fn you_must_be_logged_in_to_see_change_password_form() {
    let app = TestApp::spawn();
    assert_eq!(
        zero_to_prod::authentication::reject_anonymous_users(&app.sessions, None),
        zero_to_prod::authentication::AccessDecision::RedirectToLogin
    );
}

#[test]
fn you_must_be_logged_in_to_change_your_password() {
    let mut app = TestApp::spawn();
    let location = app.post_change_password(None, "whatever", "new-password", "new-password");
    assert_eq!(location, "/login");
    assert!(app.creds.verify_current_password(app.user_id, &"initial-password".to_string()));
    assert_eq!(render_flash(&mut app.flash), "");
}

#[test]
fn new_password_fields_must_match() {
    let mut app = TestApp::spawn();
    let (u, p) = (app.username.clone(), app.password.clone());
    let sid = app.post_login(&u, &p).unwrap();
    let location = app.post_change_password(Some(sid), &p, "new-password", "other-password");
    assert_eq!(location, "/admin/password");
    let html_page = render_flash(&mut app.flash);
    assert!(html_page.contains("You entered two different new passwords"));
    assert!(app.creds.verify_current_password(app.user_id, &"initial-password".to_string()));
    assert!(!app.creds.verify_current_password(app.user_id, &"new-password".to_string()));
}

#[test]
fn current_password_must_be_valid() {
    let mut app = TestApp::spawn();
    let (u, p) = (app.username.clone(), app.password.clone());
    let sid = app.post_login(&u, &p).unwrap();
    let location = app.post_change_password(Some(sid), "wrong-password", "new-password", "new-password");
    assert_eq!(location, "/admin/password");
    let html_page = render_flash(&mut app.flash);
    assert!(html_page.contains("The current password is incorrect"));
    assert!(app.creds.verify_current_password(app.user_id, &"initial-password".to_string()));
    assert!(!app.creds.verify_current_password(app.user_id, &"new-password".to_string()));
}

#[test]
fn changing_password_works() {
    let mut app = TestApp::spawn();
    let (u, p) = (app.username.clone(), app.password.clone());

    let response = app.post_login(&u, &p);
    assert_eq!(login_redirect(&response).location, "/admin/dashboard");
    let sid = response.unwrap();
    let location = app.post_change_password(Some(sid), &p, "new-password", "new-password");
    assert_eq!(location, "/admin/password");

    let html_page = render_flash(&mut app.flash);
    assert!(html_page.contains("<p><i>Your password has been changed.</i></p>"));

    let response = log_out(&mut app.sessions, &mut app.flash, Some(sid));
    assert_eq!(response.location, "/login");
    let _ = render_flash(&mut app.flash);

    let response = app.post_login(&u, &p);
    assert_eq!(response, Err(LoginError::AuthError));
    assert_eq!(login_redirect(&response).location, "/login");
    let response = app.post_login(&u, "new-password");
    assert_eq!(login_redirect(&response).location, "/admin/dashboard");
    let sid = response.unwrap();
    assert_eq!(app.sessions.resolve(sid), Some(app.user_id));
}

#[test]
fn change_password_outcomes() {
    let mut creds = CredentialStore::new();
    let old_hash = hash_of("old");
    let new_hash = hash_of("n");
    assert!(creds.add_user(1, "a".to_string(), old_hash.clone()));
    let new = "n".to_string();
    let other = "m".to_string();
    assert_eq!(
        change_password(&mut creds, 1, true, &new, &other, hash_of("n")),
        Err(ChangePasswordError::PasswordMismatch)
    );
    assert_eq!(
        change_password(&mut creds, 1, false, &new, &new, hash_of("n")),
        Err(ChangePasswordError::IncorrectCurrentPassword)
    );
    assert_eq!(
        change_password(&mut creds, 2, true, &new, &new, hash_of("n")),
        Err(ChangePasswordError::UnexpectedError)
    );
    assert_eq!(creds.stored_password_hash(1), Some(old_hash));
    assert_eq!(change_password(&mut creds, 1, true, &new, &new, new_hash.clone()), Ok(()));
    assert_eq!(creds.stored_password_hash(1), Some(new_hash));
    assert_eq!(creds.stored_password_hash(2), None);
    assert_eq!(ChangePasswordError::PasswordMismatch.message(), "You entered two different new passwords.");
    assert_eq!(ChangePasswordError::IncorrectCurrentPassword.message(), "The current password is incorrect.");
    assert_eq!(ChangePasswordError::UnexpectedError.message(), "Something went wrong.");
}

#[test]
fn password_fields_are_compared_before_the_current_password() {
    let mut app = TestApp::spawn();
    let (u, p) = (app.username.clone(), app.password.clone());
    let sid = app.post_login(&u, &p).unwrap();
    let location = app.post_change_password(Some(sid), "wrong-password", "a", "b");
    assert_eq!(location, "/admin/password");
    assert!(render_flash(&mut app.flash).contains("You entered two different new passwords"));
}

#[test]
fn a_missing_user_is_a_server_error_without_flash() {
    let mut app = TestApp::spawn();
    assert_eq!(app.sessions.establish_session(5, 99), Some(5));
    let r = submit_password_change(
        &mut app.creds,
        &app.sessions,
        &mut app.flash,
        Some(5),
        &"x".to_string(),
        &"n".to_string(),
        &"n".to_string(),
        hash_of("n"),
    );
    assert!(matches!(r, Err(ChangePasswordError::UnexpectedError)));
    assert_eq!(render_flash(&mut app.flash), "");
}

#[test]
fn a_new_hash_of_another_password_is_refused() {
    let mut app = TestApp::spawn();
    let (u, p) = (app.username.clone(), app.password.clone());
    let sid = app.post_login(&u, &p).unwrap();
    let r = submit_password_change(
        &mut app.creds,
        &app.sessions,
        &mut app.flash,
        Some(sid),
        &p,
        &"new-password".to_string(),
        &"new-password".to_string(),
        hash_of("something-else"),
    );
    assert!(matches!(r, Err(ChangePasswordError::UnexpectedError)));
    assert!(app.creds.verify_current_password(app.user_id, &p));
    assert_eq!(render_flash(&mut app.flash), "");
}
