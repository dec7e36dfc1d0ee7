use argon2::password_hash::SaltString;
use argon2::{Algorithm, Argon2, Params, PasswordHasher, Version};
use zero_to_prod::login::{login_with_password, FormData, LoginError};
use zero_to_prod::render::render_flash;
use zero_to_prod::sessions::{FlashSlot, SessionStore};
use zero_to_prod::users::{AuthError, CredentialStore};

fn phc(password: &str) -> String {
    let params = Params::new(64, 1, 1, None).unwrap();
    let salt = SaltString::generate(&mut rand::thread_rng());
    Argon2::new(Algorithm::Argon2id, Version::V0x13, params)
        .hash_password(password.as_bytes(), &salt)
        .unwrap()
        .to_string()
}

fn store() -> CredentialStore {
    let mut creds = CredentialStore::new();
    assert!(creds.add_user(11, "le-guin".to_string(), phc("earthsea")));
    creds
}

#[test]
fn right_password_validates() {
    let creds = store();
    let name = "le-guin".to_string();
    assert!(creds.verify_password(&name, &"earthsea".to_string()));
    assert_eq!(creds.validate_credentials(&name, &"earthsea".to_string()), Ok(11));
}

#[test]
fn wrong_password_or_unknown_user_is_invalid() {
    let creds = store();
    let name = "le-guin".to_string();
    assert!(!creds.verify_password(&name, &"Earthsea".to_string()));
    assert_eq!(creds.validate_credentials(&name, &"Earthsea".to_string()), Err(AuthError::InvalidCredentials));
    assert_eq!(
        creds.validate_credentials(&"random-username".to_string(), &"random-password".to_string()),
        Err(AuthError::InvalidCredentials)
    );
}

#[test]
fn current_password_is_checked_against_the_stored_hash() {
    let creds = store();
    assert!(creds.verify_current_password(11, &"earthsea".to_string()));
    assert!(!creds.verify_current_password(11, &"tehanu".to_string()));
    assert!(!creds.verify_current_password(12, &"earthsea".to_string()));
}

#[test]
fn password_change_then_login_with_argon2() {
    let mut creds = store();
    let mut sessions = SessionStore::new();
    let mut flash = FlashSlot::new();
    let form = FormData { username: "le-guin".to_string(), password: "earthsea".to_string() };
    assert_eq!(login_with_password(&creds, &mut sessions, &mut flash, &form, 1, None), Ok(1));

    let new = "tehanu".to_string();
    let verified = creds.verify_current_password(11, &form.password);
    let r = zero_to_prod::password::change_password(&mut creds, 11, verified, &new, &new, phc("tehanu"));
    assert_eq!(r, Ok(()));
    zero_to_prod::login::log_out(&mut sessions, &mut flash, Some(1));
    let _ = render_flash(&mut flash);

    assert_eq!(login_with_password(&creds, &mut sessions, &mut flash, &form, 2, None), Err(LoginError::AuthError));
    assert_eq!(render_flash(&mut flash), "<p><i>Authentication failed</i></p>");
    assert_eq!(render_flash(&mut flash), "");
    let form = FormData { username: "le-guin".to_string(), password: "tehanu".to_string() };
    assert_eq!(login_with_password(&creds, &mut sessions, &mut flash, &form, 3, None), Ok(3));
    assert_eq!(sessions.resolve(3), Some(11));
}
