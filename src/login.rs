use vstd::prelude::*;
use crate::authentication::{access_decision, redirect_to, reject_anonymous_users, AccessDecision, Redirect, LOGIN_PATH, SEE_OTHER};
use crate::sessions::{ended, issued, FlashSlot, SessionRecord, SessionStore};
use crate::users::{auth_result, expected_hash, password_matches, AuthError, CredentialStore};

verus! {

pub const DASHBOARD_PATH: &'static str = "/admin/dashboard";

pub const AUTH_FAILED_MESSAGE: &'static str = "Authentication failed";

pub const UNEXPECTED_MESSAGE: &'static str = "Something went wrong";

pub const LOGGED_OUT_MESSAGE: &'static str = "You have successfully logged out.";

/// The fields of the login form.
pub struct FormData {
    pub username: String,
    pub password: String,
}

/// Why a login did not go through.
#[derive(Clone, Copy, Debug, PartialEq, Eq, Structural)]
pub enum LoginError {
    AuthError,
    UnexpectedError,
}

pub open spec fn login_error_message(e: LoginError) -> Seq<char> {
    match e {
        LoginError::AuthError => AUTH_FAILED_MESSAGE@,
        LoginError::UnexpectedError => UNEXPECTED_MESSAGE@,
    }
}

impl LoginError {
    /// The text shown to the user.
    pub fn message(&self) -> (r: String)
        ensures
            r@ == login_error_message(*self),
    {
        match self {
            LoginError::AuthError => String::from_str(AUTH_FAILED_MESSAGE),
            LoginError::UnexpectedError => String::from_str(UNEXPECTED_MESSAGE),
        }
    }

    /// A failed login answers with a redirect back to the login page.
    pub fn status_code(&self) -> (r: u16)
        ensures
            r == SEE_OTHER,
    {
        SEE_OTHER
    }

    pub fn from_auth_error(e: AuthError) -> (r: LoginError)
        ensures
            r == login_error_of(e),
    {
        match e {
            AuthError::InvalidCredentials => LoginError::AuthError,
            AuthError::UnexpectedError => LoginError::UnexpectedError,
        }
    }
}

pub open spec fn login_error_of(e: AuthError) -> LoginError {
    match e {
        AuthError::InvalidCredentials => LoginError::AuthError,
        AuthError::UnexpectedError => LoginError::UnexpectedError,
    }
}

/// The sessions once the one the request came with, if any, has ended.
pub open spec fn without_previous(sessions: Seq<SessionRecord>, previous: Option<u128>) -> Seq<SessionRecord> {
    match previous {
        Some(sid) => ended(sessions, sid),
        None => sessions,
    }
}

/// What `login` returns.
pub open spec fn login_result(
    users: Seq<crate::users::UserRecord>,
    sessions: Seq<SessionRecord>,
    username: Seq<char>,
    password_verified: bool,
    candidate_session: u128,
) -> Result<u128, LoginError> {
    match auth_result(users, username, password_verified) {
        Ok(_) => if issued(sessions, candidate_session) {
            Err(LoginError::UnexpectedError)
        } else {
            Ok(candidate_session)
        },
        Err(e) => Err(login_error_of(e)),
    }
}

/// The sessions after `login`: the previous one ended and, on success, a new
/// live one for the user under `candidate_session`.
pub open spec fn sessions_after_login(
    users: Seq<crate::users::UserRecord>,
    sessions: Seq<SessionRecord>,
    username: Seq<char>,
    password_verified: bool,
    candidate_session: u128,
    previous_session: Option<u128>,
) -> Seq<SessionRecord> {
    match login_result(users, sessions, username, password_verified, candidate_session) {
        Ok(sid) => without_previous(sessions, previous_session).push(
            SessionRecord { session_id: sid, user_id: auth_result(users, username, password_verified)->Ok_0, live: true },
        ),
        Err(_) => sessions,
    }
}

pub(crate) proof fn lemma_ended_keeps_ids(sessions: Seq<SessionRecord>, sid: u128, id: u128)
    ensures
        issued(ended(sessions, sid), id) == issued(sessions, id),
{
    let e = ended(sessions, sid);
    if issued(sessions, id) {
        let k = choose|k: int| 0 <= k < sessions.len() && #[trigger] sessions[k].session_id == id;
        assert(e[k].session_id == id);
    }
    if issued(e, id) {
        let k = choose|k: int| 0 <= k < e.len() && #[trigger] e[k].session_id == id;
        assert(sessions[k].session_id == id);
    }
}

/// Handles a submitted login form. `password_verified` is the outcome of
/// checking `form.password` against `creds.expected_password_hash(form.username)`;
/// `candidate_session` is a freshly drawn session id and `previous_session`
/// the one the request came with.
///
/// The previous session always ends. On success a new session under
/// `candidate_session` is live for the user, and the caller redirects to the
/// dashboard. On failure no session is created, the flash holds the error's
/// message, and the caller redirects to the login page.
pub fn login(
    creds: &CredentialStore,
    sessions: &mut SessionStore,
    flash: &mut FlashSlot,
    form: &FormData,
    password_verified: bool,
    candidate_session: u128,
    previous_session: Option<u128>,
) -> (r: Result<u128, LoginError>)
    requires
        old(sessions).wf(),
    ensures
        final(sessions).wf(),
        r == login_result(creds@, old(sessions)@, form.username@, password_verified, candidate_session),
        r is Err ==> final(sessions)@ == old(sessions)@,
        final(sessions)@ == sessions_after_login(
            creds@,
            old(sessions)@,
            form.username@,
            password_verified,
            candidate_session,
            previous_session,
        ),
        match r {
            Ok(_) => final(flash)@ == old(flash)@,
            Err(e) => final(flash)@ == Some(login_error_message(e)),
        },
{
    let ghost before = sessions@;
    let outcome = match creds.authenticate(&form.username, password_verified) {
        Ok(user_id) => if sessions.is_issued(candidate_session) {
            Err(LoginError::UnexpectedError)
        } else {
            if let Some(sid) = previous_session {
                sessions.destroy_session(sid);
                proof {
                    lemma_ended_keeps_ids(before, sid, candidate_session);
                }
            }
            match sessions.establish_session(candidate_session, user_id) {
                Some(sid) => Ok(sid),
                None => Err(LoginError::UnexpectedError),
            }
        },
        Err(e) => Err(LoginError::from_auth_error(e)),
    };
    if let Err(e) = outcome {
        flash.set_flash(e.message());
    }
    outcome
}

/// Where the answer to a login goes: the dashboard on success, back to the
/// login page otherwise.
pub fn login_redirect(r: &Result<u128, LoginError>) -> (red: Redirect)
    ensures
        r is Ok ==> red.location@ == DASHBOARD_PATH@,
        r is Err ==> red.location@ == LOGIN_PATH@,
{
    match r {
        Ok(_) => redirect_to(DASHBOARD_PATH),
        Err(_) => redirect_to(LOGIN_PATH),
    }
}

/// `login`, with `form.password` verified against the hash that
/// `creds.expected_password_hash(form.username)` gives.
pub fn login_with_password(
    creds: &CredentialStore,
    sessions: &mut SessionStore,
    flash: &mut FlashSlot,
    form: &FormData,
    candidate_session: u128,
    previous_session: Option<u128>,
) -> (r: Result<u128, LoginError>)
    requires
        old(sessions).wf(),
    ensures
        final(sessions).wf(),
        ({
            let verified = password_matches(form.password@, expected_hash(creds@, form.username@));
            &&& r == login_result(creds@, old(sessions)@, form.username@, verified, candidate_session)
            &&& final(sessions)@ == sessions_after_login(
                creds@,
                old(sessions)@,
                form.username@,
                verified,
                candidate_session,
                previous_session,
            )
            &&& match r {
                Ok(_) => final(flash)@ == old(flash)@,
                Err(e) => final(flash)@ == Some(login_error_message(e)),
            }
        }),
{
    let verified = creds.verify_password(&form.username, &form.password);
    login(creds, sessions, flash, form, verified, candidate_session, previous_session)
}

/// Handles a logout: behind the login guard, ends the session and leaves a
/// farewell flash; without a live session nothing changes. Either way the
/// answer is a redirect to the login page.
pub fn log_out(sessions: &mut SessionStore, flash: &mut FlashSlot, session_cookie: Option<u128>) -> (r: Redirect)
    requires
        old(sessions).wf(),
    ensures
        final(sessions).wf(),
        r.location@ == LOGIN_PATH@,
        match access_decision(old(sessions)@, session_cookie) {
            AccessDecision::RedirectToLogin => final(sessions)@ == old(sessions)@ && final(flash)@ == old(flash)@,
            AccessDecision::Proceed(_) => final(sessions)@ == ended(old(sessions)@, session_cookie->0)
                && final(flash)@ == Some(LOGGED_OUT_MESSAGE@),
        },
{
    match reject_anonymous_users(sessions, session_cookie) {
        AccessDecision::RedirectToLogin => {},
        AccessDecision::Proceed(_) => {
            if let Some(sid) = session_cookie {
                sessions.destroy_session(sid);
            }
            flash.set_flash(String::from_str(LOGGED_OUT_MESSAGE));
        },
    }
    redirect_to(LOGIN_PATH)
}

} // verus!
