use vstd::prelude::*;
use crate::authentication::{access_decision, AccessDecision};
use crate::login::{login_error_message, login_result, sessions_after_login, without_previous, LoginError, AUTH_FAILED_MESSAGE};
use crate::render::flash_markup;
use crate::newsletter::{deliverable, recipients_of};
use crate::password::{change_password_message, change_password_result, checked_change_result, ChangePasswordError};
use crate::sessions::{ended, issued, session_owner, SessionRecord};
use crate::subscriptions::{after_confirm, token_index, token_index_from, Subscriber, SubscriptionStatus};
use crate::users::{auth_result, expected_hash, password_matches, find_id, find_id_from, find_user, find_user_from, with_password_hash, AuthError, UserRecord};

verus! {

/// A login with the right password of a stored user succeeds with that
/// user's id, and the session it establishes carries an id that no earlier
/// session had; with a fresh id drawn, it succeeds.
pub proof fn law_valid_login_mints_fresh_session(
    users: Seq<UserRecord>,
    sessions: Seq<SessionRecord>,
    username: Seq<char>,
    candidate_session: u128,
    previous_session: Option<u128>,
)
    requires
        find_user(users, username) is Some,
    ensures
        auth_result(users, username, true) == Ok::<u64, AuthError>(find_user(users, username)->0.user_id),
        !issued(sessions, candidate_session) ==> login_result(users, sessions, username, true, candidate_session)
            == Ok::<u128, LoginError>(candidate_session),
        match login_result(users, sessions, username, true, candidate_session) {
            Ok(sid) => forall|k: int| 0 <= k < sessions.len() ==> #[trigger] sessions[k].session_id != sid,
            Err(_) => true,
        },
        login_result(users, sessions, username, true, candidate_session) is Ok ==> session_owner(
            sessions_after_login(users, sessions, username, true, candidate_session, previous_session),
            candidate_session,
        ) == Some(find_user(users, username)->0.user_id),
{
    let after = sessions_after_login(users, sessions, username, true, candidate_session, previous_session);
    if login_result(users, sessions, username, true, candidate_session) is Ok {
        let rest = without_previous(sessions, previous_session);
        lemma_without_previous_keeps_ids(sessions, previous_session, candidate_session);
        assert(!issued(rest, candidate_session));
        lemma_find_last(after, candidate_session, 0);
    }
}

proof fn lemma_without_previous_keeps_ids(sessions: Seq<SessionRecord>, previous: Option<u128>, id: u128)
    ensures
        issued(without_previous(sessions, previous), id) == issued(sessions, id),
{
    if let Some(p) = previous {
        crate::login::lemma_ended_keeps_ids(sessions, p, id);
    }
}

proof fn lemma_find_last(s: Seq<SessionRecord>, sid: u128, i: int)
    requires
        0 <= i < s.len(),
        s.last().session_id == sid,
        forall|k: int| 0 <= k < s.len() - 1 ==> #[trigger] s[k].session_id != sid,
    ensures
        crate::sessions::find_session_from(s, sid, i) == Some(s.last()),
    decreases s.len() - i,
{
    if i < s.len() - 1 {
        lemma_find_last(s, sid, i + 1);
    }
}

/// A wrong password, or an unknown username whatever the password, gives
/// `InvalidCredentials`; the login then fails with "Authentication failed",
/// creates no session and leaves every session as it was.
pub proof fn law_invalid_credentials_are_refused(
    users: Seq<UserRecord>,
    sessions: Seq<SessionRecord>,
    username: Seq<char>,
    password_verified: bool,
    candidate_session: u128,
    previous_session: Option<u128>,
)
    requires
        find_user(users, username) is None || !password_verified,
    ensures
        auth_result(users, username, password_verified) == Err::<u64, AuthError>(AuthError::InvalidCredentials),
        login_result(users, sessions, username, password_verified, candidate_session) == Err::<u128, LoginError>(
            LoginError::AuthError,
        ),
        login_error_message(LoginError::AuthError) == AUTH_FAILED_MESSAGE@,
        sessions_after_login(users, sessions, username, password_verified, candidate_session, previous_session)
            == sessions,
{
}

/// After a failed login the flash holds "Authentication failed": the next
/// render shows it as `<p><i>Authentication failed</i></p>` and clears it, so
/// the render after that shows nothing.
pub proof fn law_failed_login_flash_shows_once(
    users: Seq<UserRecord>,
    sessions: Seq<SessionRecord>,
    username: Seq<char>,
    password_verified: bool,
    candidate_session: u128,
)
    requires
        find_user(users, username) is None || !password_verified,
    ensures
        ({
            let r = login_result(users, sessions, username, password_verified, candidate_session);
            &&& r is Err
            &&& flash_markup(Some(login_error_message(r->Err_0))) == "<p><i>Authentication failed</i></p>"@
            &&& flash_markup(None) == Seq::<char>::empty()
        }),
{
    reveal_strlit("<p><i>");
    reveal_strlit("</i></p>");
    reveal_strlit("Authentication failed");
    reveal_strlit("<p><i>Authentication failed</i></p>");
    assert(flash_markup(Some(AUTH_FAILED_MESSAGE@)) =~= "<p><i>Authentication failed</i></p>"@);
}

/// A request without a live session is answered with the redirect to the
/// login page; no protected handler runs.
pub proof fn law_anonymous_requests_are_redirected(sessions: Seq<SessionRecord>, session_cookie: Option<u128>)
    requires
        session_cookie is None || session_owner(sessions, session_cookie->0) is None,
    ensures
        access_decision(sessions, session_cookie) == AccessDecision::RedirectToLogin,
{
}

proof fn lemma_same_tokens(a: Seq<Subscriber>, b: Seq<Subscriber>, token: Seq<char>, i: int)
    requires
        0 <= i,
        a.len() == b.len(),
        forall|k: int| 0 <= k < a.len() ==> #[trigger] a[k].confirmation_token == b[k].confirmation_token,
    ensures
        token_index_from(a, token, i) == token_index_from(b, token, i),
    decreases a.len() - i,
{
    if i < a.len() {
        lemma_same_tokens(a, b, token, i + 1);
    }
}

proof fn lemma_token_found(subs: Seq<Subscriber>, token: Seq<char>, i: int)
    requires
        0 <= i,
    ensures
        match token_index_from(subs, token, i) {
            Some(k) => i <= k < subs.len(),
            None => true,
        },
    decreases subs.len() - i,
{
    if i < subs.len() {
        lemma_token_found(subs, token, i + 1);
    }
}

/// Redeeming a known token twice succeeds both times: the subscriber is
/// confirmed after the first, and the second changes nothing.
pub proof fn law_confirmation_is_idempotent(subs: Seq<Subscriber>, token: Seq<char>)
    requires
        token_index(subs, token) is Some,
    ensures
        token_index(after_confirm(subs, token), token) == token_index(subs, token),
        after_confirm(subs, token)[token_index(subs, token)->0].status == SubscriptionStatus::Confirmed,
        after_confirm(after_confirm(subs, token), token) == after_confirm(subs, token),
{
    let once = after_confirm(subs, token);
    lemma_token_found(subs, token, 0);
    lemma_same_tokens(subs, once, token, 0);
}

proof fn lemma_no_confirmed_no_recipients(subs: Seq<Subscriber>)
    requires
        forall|k: int| 0 <= k < subs.len() ==> #[trigger] subs[k].status == SubscriptionStatus::PendingConfirmation,
    ensures
        recipients_of(subs).len() == 0,
    decreases subs.len(),
{
    if subs.len() > 0 {
        let rest = subs.drop_last();
        assert forall|k: int| 0 <= k < rest.len() implies #[trigger] rest[k].status
            == SubscriptionStatus::PendingConfirmation by {
            assert(rest[k] == subs[k]);
        }
        lemma_no_confirmed_no_recipients(rest);
    }
}

proof fn lemma_one_recipient(subs: Seq<Subscriber>, c: int)
    requires
        0 <= c < subs.len(),
        deliverable(subs[c]),
        forall|k: int| 0 <= k < subs.len() && k != c ==> #[trigger] subs[k].status
            == SubscriptionStatus::PendingConfirmation,
    ensures
        recipients_of(subs) == seq![subs[c].email@],
    decreases subs.len(),
{
    let rest = subs.drop_last();
    if c == subs.len() - 1 {
        assert forall|k: int| 0 <= k < rest.len() implies #[trigger] rest[k].status
            == SubscriptionStatus::PendingConfirmation by {
            assert(rest[k] == subs[k]);
        }
        lemma_no_confirmed_no_recipients(rest);
        assert(recipients_of(rest) =~= Seq::<Seq<char>>::empty());
        assert(recipients_of(subs) =~= seq![subs[c].email@]);
    } else {
        assert forall|k: int| 0 <= k < rest.len() && k != c implies #[trigger] rest[k].status
            == SubscriptionStatus::PendingConfirmation by {
            assert(rest[k] == subs[k]);
        }
        assert(rest[c] == subs[c]);
        lemma_one_recipient(rest, c);
    }
}

/// With every subscriber pending, an issue goes to nobody; with exactly one
/// confirmed subscriber whose address is well formed, it goes to that one
/// address alone.
pub proof fn law_only_confirmed_subscribers_receive(subs: Seq<Subscriber>, c: int)
    ensures
        (forall|k: int| 0 <= k < subs.len() ==> #[trigger] subs[k].status == SubscriptionStatus::PendingConfirmation)
            ==> recipients_of(subs).len() == 0,
        (0 <= c < subs.len() && deliverable(subs[c]) && forall|k: int|
            0 <= k < subs.len() && k != c ==> #[trigger] subs[k].status == SubscriptionStatus::PendingConfirmation)
            ==> recipients_of(subs) == seq![subs[c].email@],
{
    if forall|k: int| 0 <= k < subs.len() ==> #[trigger] subs[k].status == SubscriptionStatus::PendingConfirmation {
        lemma_no_confirmed_no_recipients(subs);
    }
    if 0 <= c < subs.len() && deliverable(subs[c]) && forall|k: int|
        0 <= k < subs.len() && k != c ==> #[trigger] subs[k].status == SubscriptionStatus::PendingConfirmation {
        lemma_one_recipient(subs, c);
    }
}

/// Two different new passwords are refused with "You entered two different
/// new passwords." before anything else is looked at.
pub proof fn law_mismatched_new_passwords_are_refused(
    users: Seq<UserRecord>,
    user_id: u64,
    current_password_verified: bool,
    new_password: Seq<char>,
    new_password_check: Seq<char>,
)
    requires
        new_password != new_password_check,
    ensures
        change_password_result(users, user_id, current_password_verified, new_password, new_password_check)
            == Err::<(), ChangePasswordError>(ChangePasswordError::PasswordMismatch),
        change_password_message(ChangePasswordError::PasswordMismatch)
            == crate::password::PASSWORD_MISMATCH_MESSAGE@,
{
}

/// For an existing user with matching new passwords, a current password that
/// does not verify is refused with "The current password is incorrect."
pub proof fn law_wrong_current_password_is_refused(
    users: Seq<UserRecord>,
    user_id: u64,
    new_password: Seq<char>,
)
    requires
        find_id(users, user_id) is Some,
    ensures
        change_password_result(users, user_id, false, new_password, new_password)
            == Err::<(), ChangePasswordError>(ChangePasswordError::IncorrectCurrentPassword),
        change_password_message(ChangePasswordError::IncorrectCurrentPassword)
            == crate::password::INCORRECT_PASSWORD_MESSAGE@,
{
}

proof fn lemma_rehash_find(users: Seq<UserRecord>, id: u64, hash: String, name: Seq<char>, i: int)
    requires
        0 <= i,
    ensures
        match find_user_from(users, name, i) {
            Some(u) => find_user_from(with_password_hash(users, id, hash), name, i) == Some(
                if u.user_id == id {
                    UserRecord { user_id: u.user_id, username: u.username, password_hash: hash }
                } else {
                    u
                },
            ),
            None => find_user_from(with_password_hash(users, id, hash), name, i) is None,
        },
    decreases users.len() - i,
{
    if i < users.len() {
        lemma_rehash_find(users, id, hash, name, i + 1);
    }
}

proof fn lemma_find_user_matches(users: Seq<UserRecord>, name: Seq<char>, i: int)
    requires
        0 <= i,
    ensures
        match find_user_from(users, name, i) {
            Some(u) => exists|k: int| i <= k < users.len() && #[trigger] users[k] == u,
            None => true,
        },
    decreases users.len() - i,
{
    if i < users.len() {
        lemma_find_user_matches(users, name, i + 1);
        if users[i].username@ == name {
            assert(users[i] == users[i]);
        }
    }
}

/// After a user changes their password to one hashed as `new_hash` and logs
/// out, their old session is gone; a later login is checked against
/// `new_hash`, so a password that does not verify against it (the old one)
/// is refused, and the new one, which a successful checked change has
/// verified against `new_hash`, lets the user in.
pub proof fn law_password_change_takes_effect(
    users: Seq<UserRecord>,
    sessions: Seq<SessionRecord>,
    username: Seq<char>,
    session_id: u128,
    old_password: Seq<char>,
    new_password: Seq<char>,
    new_hash: String,
)
    requires
        find_user(users, username) is Some,
    ensures
        ({
            let user_id = find_user(users, username)->0.user_id;
            let changed = with_password_hash(users, user_id, new_hash);
            &&& change_password_result(users, user_id, true, new_password, new_password) is Ok
            &&& session_owner(ended(sessions, session_id), session_id) is None
            &&& expected_hash(changed, username) == new_hash@
            &&& auth_result(changed, username, false) == Err::<u64, AuthError>(AuthError::InvalidCredentials)
            &&& auth_result(changed, username, true) == Ok::<u64, AuthError>(user_id)
            &&& !password_matches(old_password, new_hash@) ==> auth_result(
                changed,
                username,
                password_matches(old_password, expected_hash(changed, username)),
            ) == Err::<u64, AuthError>(AuthError::InvalidCredentials)
            &&& checked_change_result(users, user_id, old_password, new_password, new_password, new_hash@) is Ok
                ==> auth_result(
                changed,
                username,
                password_matches(new_password, expected_hash(changed, username)),
            ) == Ok::<u64, AuthError>(user_id)
        }),
{
    let u = find_user(users, username)->0;
    lemma_find_user_matches(users, username, 0);
    let k = choose|k: int| 0 <= k < users.len() && #[trigger] users[k] == u;
    lemma_id_present(users, u.user_id, 0, k);
    lemma_rehash_find(users, u.user_id, new_hash, username, 0);
    lemma_ended_session_not_live(sessions, session_id, 0);
}

proof fn lemma_id_present(users: Seq<UserRecord>, id: u64, i: int, k: int)
    requires
        0 <= i <= k < users.len(),
        users[k].user_id == id,
    ensures
        find_id_from(users, id, i) is Some,
    decreases k - i,
{
    if i < k {
        lemma_id_present(users, id, i + 1, k);
    }
}

proof fn lemma_ended_session_not_live(s: Seq<SessionRecord>, sid: u128, i: int)
    requires
        0 <= i,
    ensures
        match crate::sessions::find_session_from(ended(s, sid), sid, i) {
            Some(r) => !r.live,
            None => true,
        },
    decreases s.len() - i,
{
    if i < s.len() {
        lemma_ended_session_not_live(s, sid, i + 1);
    }
}

} // verus!
