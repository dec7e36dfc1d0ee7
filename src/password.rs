use vstd::prelude::*;
use crate::authentication::{access_decision, redirect_to, reject_anonymous_users, AccessDecision, Redirect, LOGIN_PATH};
use crate::sessions::{FlashSlot, SessionStore};
use crate::users::{find_id, password_matches, verify_password_hash, with_password_hash, CredentialStore, UserRecord};

verus! {

pub const PASSWORD_PATH: &'static str = "/admin/password";

pub const PASSWORD_MISMATCH_MESSAGE: &'static str = "You entered two different new passwords.";

pub const INCORRECT_PASSWORD_MESSAGE: &'static str = "The current password is incorrect.";

pub const PASSWORD_CHANGE_FAILED_MESSAGE: &'static str = "Something went wrong.";

pub const PASSWORD_CHANGED_MESSAGE: &'static str = "Your password has been changed.";

/// Why a password change was refused.
#[derive(Clone, Copy, Debug, PartialEq, Eq, Structural)]
pub enum ChangePasswordError {
    PasswordMismatch,
    IncorrectCurrentPassword,
    UnexpectedError,
}

pub open spec fn change_password_message(e: ChangePasswordError) -> Seq<char> {
    match e {
        ChangePasswordError::PasswordMismatch => PASSWORD_MISMATCH_MESSAGE@,
        ChangePasswordError::IncorrectCurrentPassword => INCORRECT_PASSWORD_MESSAGE@,
        ChangePasswordError::UnexpectedError => PASSWORD_CHANGE_FAILED_MESSAGE@,
    }
}

impl ChangePasswordError {
    /// The text shown to the user.
    pub fn message(&self) -> (r: String)
        ensures
            r@ == change_password_message(*self),
    {
        match self {
            ChangePasswordError::PasswordMismatch => String::from_str(PASSWORD_MISMATCH_MESSAGE),
            ChangePasswordError::IncorrectCurrentPassword => String::from_str(INCORRECT_PASSWORD_MESSAGE),
            ChangePasswordError::UnexpectedError => String::from_str(PASSWORD_CHANGE_FAILED_MESSAGE),
        }
    }
}

/// What `change_password` returns.
pub open spec fn change_password_result(
    users: Seq<UserRecord>,
    user_id: u64,
    current_password_verified: bool,
    new_password: Seq<char>,
    new_password_check: Seq<char>,
) -> Result<(), ChangePasswordError> {
    if new_password != new_password_check {
        Err(ChangePasswordError::PasswordMismatch)
    } else if find_id(users, user_id) is None {
        Err(ChangePasswordError::UnexpectedError)
    } else if !current_password_verified {
        Err(ChangePasswordError::IncorrectCurrentPassword)
    } else {
        Ok(())
    }
}

/// Changes the password of `user_id`. `current_password_verified` is the
/// outcome of checking the current password against the stored hash, and
/// `new_hash` the salted hash of `new_password`. The two new passwords are
/// compared first; only a successful change touches the store, which then
/// holds `new_hash` for the user.
pub fn change_password(
    creds: &mut CredentialStore,
    user_id: u64,
    current_password_verified: bool,
    new_password: &String,
    new_password_check: &String,
    new_hash: String,
) -> (r: Result<(), ChangePasswordError>)
    requires
        old(creds).wf(),
    ensures
        final(creds).wf(),
        r == change_password_result(old(creds)@, user_id, current_password_verified, new_password@, new_password_check@),
        r is Ok ==> final(creds)@ == with_password_hash(old(creds)@, user_id, new_hash),
        r is Err ==> final(creds)@ == old(creds)@,
{
    if *new_password != *new_password_check {
        return Err(ChangePasswordError::PasswordMismatch);
    }
    if !creds.contains_user(user_id) {
        return Err(ChangePasswordError::UnexpectedError);
    }
    if !current_password_verified {
        return Err(ChangePasswordError::IncorrectCurrentPassword);
    }
    creds.update_password_hash(user_id, new_hash);
    Ok(())
}

/// Whether `password` verifies against the stored hash of user `user_id`.
pub open spec fn current_password_verifies(users: Seq<UserRecord>, user_id: u64, password: Seq<char>) -> bool {
    match find_id(users, user_id) {
        Some(u) => password_matches(password, u.password_hash@),
        None => false,
    }
}

/// What `change_password_checked` returns: two different new passwords are
/// refused first; a `new_hash` that does not verify `new_password` is a
/// failure of the hashing step; then `change_password` decides.
pub open spec fn checked_change_result(
    users: Seq<UserRecord>,
    user_id: u64,
    current_password: Seq<char>,
    new_password: Seq<char>,
    new_password_check: Seq<char>,
    new_hash: Seq<char>,
) -> Result<(), ChangePasswordError> {
    if new_password != new_password_check {
        Err(ChangePasswordError::PasswordMismatch)
    } else if !password_matches(new_password, new_hash) {
        Err(ChangePasswordError::UnexpectedError)
    } else {
        change_password_result(
            users,
            user_id,
            current_password_verifies(users, user_id, current_password),
            new_password,
            new_password_check,
        )
    }
}

/// `change_password`, with `current_password` checked against the stored
/// hash here, and `new_hash` checked to verify `new_password`. Two different
/// new passwords are refused before the store is read at all.
pub fn change_password_checked(
    creds: &mut CredentialStore,
    user_id: u64,
    current_password: &String,
    new_password: &String,
    new_password_check: &String,
    new_hash: String,
) -> (r: Result<(), ChangePasswordError>)
    requires
        old(creds).wf(),
    ensures
        final(creds).wf(),
        r == checked_change_result(
            old(creds)@,
            user_id,
            current_password@,
            new_password@,
            new_password_check@,
            new_hash@,
        ),
        r is Ok ==> final(creds)@ == with_password_hash(old(creds)@, user_id, new_hash),
        r is Ok ==> password_matches(new_password@, new_hash@),
        r is Err ==> final(creds)@ == old(creds)@,
{
    if *new_password != *new_password_check {
        return Err(ChangePasswordError::PasswordMismatch);
    }
    if !verify_password_hash(new_password, &new_hash) {
        return Err(ChangePasswordError::UnexpectedError);
    }
    let verified = creds.verify_current_password(user_id, current_password);
    change_password(creds, user_id, verified, new_password, new_password_check, new_hash)
}

/// Handles a submitted change-password form behind the login guard. Without
/// a live session nothing changes and the answer is a redirect to the login
/// page. Otherwise the change is made for the session's user: a refused or
/// successful change leaves its message in the flash and redirects to the
/// change-password page; a store failure (`UnexpectedError`) changes nothing
/// and comes back as the error.
pub fn submit_password_change(
    creds: &mut CredentialStore,
    sessions: &SessionStore,
    flash: &mut FlashSlot,
    session_cookie: Option<u128>,
    current_password: &String,
    new_password: &String,
    new_password_check: &String,
    new_hash: String,
) -> (r: Result<Redirect, ChangePasswordError>)
    requires
        old(creds).wf(),
    ensures
        final(creds).wf(),
        match access_decision(sessions@, session_cookie) {
            AccessDecision::RedirectToLogin => {
                &&& r is Ok && r->Ok_0.location@ == LOGIN_PATH@
                &&& final(creds)@ == old(creds)@
                &&& final(flash)@ == old(flash)@
            },
            AccessDecision::Proceed(user_id) => match checked_change_result(
                old(creds)@,
                user_id,
                current_password@,
                new_password@,
                new_password_check@,
                new_hash@,
            ) {
                Ok(_) => {
                    &&& r is Ok && r->Ok_0.location@ == PASSWORD_PATH@
                    &&& final(creds)@ == with_password_hash(old(creds)@, user_id, new_hash)
                    &&& password_matches(new_password@, new_hash@)
                    &&& final(flash)@ == Some(PASSWORD_CHANGED_MESSAGE@)
                },
                Err(ChangePasswordError::UnexpectedError) => {
                    &&& r == Err::<Redirect, ChangePasswordError>(ChangePasswordError::UnexpectedError)
                    &&& final(creds)@ == old(creds)@
                    &&& final(flash)@ == old(flash)@
                },
                Err(e) => {
                    &&& r is Ok && r->Ok_0.location@ == PASSWORD_PATH@
                    &&& final(creds)@ == old(creds)@
                    &&& final(flash)@ == Some(change_password_message(e))
                },
            },
        },
{
    match reject_anonymous_users(sessions, session_cookie) {
        AccessDecision::RedirectToLogin => Ok(redirect_to(LOGIN_PATH)),
        AccessDecision::Proceed(user_id) => {
            match change_password_checked(
                creds,
                user_id,
                current_password,
                new_password,
                new_password_check,
                new_hash,
            ) {
                Ok(()) => flash.set_flash(String::from_str(PASSWORD_CHANGED_MESSAGE)),
                Err(ChangePasswordError::UnexpectedError) => {
                    return Err(ChangePasswordError::UnexpectedError);
                },
                Err(e) => flash.set_flash(e.message()),
            }
            Ok(redirect_to(PASSWORD_PATH))
        },
    }
}

} // verus!
