use vstd::prelude::*;
use crate::sessions::{session_owner, SessionStore};

verus! {

pub const LOGIN_PATH: &'static str = "/login";

pub const SEE_OTHER: u16 = 303;

/// A redirect response (status 303) to `location`.
#[derive(Clone, Debug)]
pub struct Redirect {
    pub location: String,
}

impl Redirect {
    pub fn status_code(&self) -> (r: u16)
        ensures
            r == SEE_OTHER,
    {
        SEE_OTHER
    }
}

pub fn redirect_to(location: &str) -> (r: Redirect)
    ensures
        r.location@ == location@,
{
    Redirect { location: String::from_str(location) }
}

/// What the guard in front of the protected routes decides for one request.
#[derive(Clone, Copy, Debug, PartialEq, Eq, Structural)]
pub enum AccessDecision {
    /// No live session: answer with a redirect to the login page, run nothing.
    RedirectToLogin,
    /// A live session of this user: run the handler on its behalf.
    Proceed(u64),
}

pub open spec fn access_decision(sessions: Seq<crate::sessions::SessionRecord>, session_cookie: Option<u128>) -> AccessDecision {
    match session_cookie {
        Some(sid) => match session_owner(sessions, sid) {
            Some(user_id) => AccessDecision::Proceed(user_id),
            None => AccessDecision::RedirectToLogin,
        },
        None => AccessDecision::RedirectToLogin,
    }
}

/// Lets a request into the protected routes only with the id of a live session.
pub fn reject_anonymous_users(sessions: &SessionStore, session_cookie: Option<u128>) -> (r: AccessDecision)
    ensures
        r == access_decision(sessions@, session_cookie),
{
    match session_cookie {
        Some(sid) => match sessions.resolve(sid) {
            Some(user_id) => AccessDecision::Proceed(user_id),
            None => AccessDecision::RedirectToLogin,
        },
        None => AccessDecision::RedirectToLogin,
    }
}

} // verus!
