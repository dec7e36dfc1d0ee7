use vstd::prelude::*;
use crate::authentication::{access_decision, redirect_to, reject_anonymous_users, AccessDecision, Redirect};
use crate::sessions::{FlashSlot, SessionStore};
use crate::subscriptions::{Subscriber, SubscriberStore, SubscriptionStatus};

verus! {

pub const NEWSLETTERS_PATH: &'static str = "/admin/newsletters";

pub const PUBLISHED_MESSAGE: &'static str = "The newsletter issue has been published!";

pub const INVALID_ISSUE_MESSAGE: &'static str = "The newsletter issue needs a title and some content.";

/// One issue to send out.
#[derive(Clone, Debug)]
pub struct NewsletterIssue {
    pub title: String,
    pub text_content: String,
    pub html_content: String,
}

/// Why an issue was not published.
#[derive(Clone, Copy, Debug, PartialEq, Eq, Structural)]
pub enum PublishError {
    ValidationError,
    UnexpectedError,
}

/// A title, and a text or an HTML body.
pub open spec fn valid_issue(issue: NewsletterIssue) -> bool {
    issue.title@.len() > 0 && (issue.text_content@.len() > 0 || issue.html_content@.len() > 0)
}

/// Exactly one `@`, with something before it and something after it.
pub open spec fn well_formed_email(e: Seq<char>) -> bool {
    exists|i: int|
        0 < i < e.len() - 1 && #[trigger] e[i] == '@' && forall|j: int| 0 <= j < e.len() && j != i ==> e[j] != '@'
}

/// A subscriber that is sent the issue.
pub open spec fn deliverable(s: Subscriber) -> bool {
    s.status == SubscriptionStatus::Confirmed && well_formed_email(s.email@)
}

/// A confirmed subscriber whose stored address is malformed: skipped.
pub open spec fn skipped(s: Subscriber) -> bool {
    s.status == SubscriptionStatus::Confirmed && !well_formed_email(s.email@)
}

/// The addresses of the deliverable subscribers, in list order.
pub open spec fn recipients_of(subs: Seq<Subscriber>) -> Seq<Seq<char>>
    decreases subs.len(),
{
    if subs.len() == 0 {
        Seq::empty()
    } else {
        let rest = recipients_of(subs.drop_last());
        if deliverable(subs.last()) {
            rest.push(subs.last().email@)
        } else {
            rest
        }
    }
}

/// How many confirmed subscribers are skipped.
pub open spec fn skipped_count(subs: Seq<Subscriber>) -> nat
    decreases subs.len(),
{
    if subs.len() == 0 {
        0
    } else {
        skipped_count(subs.drop_last()) + if skipped(subs.last()) {
            1nat
        } else {
            0nat
        }
    }
}

/// How many of `outcomes` are successes.
pub open spec fn successes(outcomes: Seq<bool>) -> nat
    decreases outcomes.len(),
{
    if outcomes.len() == 0 {
        0
    } else {
        successes(outcomes.drop_last()) + if outcomes.last() {
            1nat
        } else {
            0nat
        }
    }
}

pub open spec fn addresses(v: Seq<String>) -> Seq<Seq<char>> {
    v.map_values(|e: String| e@)
}

/// Who gets a delivery attempt, and how many confirmed subscribers are
/// skipped for a malformed address.
pub struct DeliveryPlan {
    pub recipients: Vec<String>,
    pub skipped: usize,
}

/// Counts of one fan-out.
#[derive(Clone, Copy, Debug, PartialEq, Eq, Structural)]
pub struct DeliveryReport {
    pub attempted: usize,
    pub succeeded: usize,
    pub failed: usize,
    pub skipped: usize,
}

/// Checks that the issue has a title and some content.
pub fn validate_issue(issue: &NewsletterIssue) -> (r: Result<(), PublishError>)
    ensures
        r is Ok <==> valid_issue(*issue),
        r is Err ==> r == Err::<(), PublishError>(PublishError::ValidationError),
{
    if issue.title.as_str().unicode_len() == 0 {
        return Err(PublishError::ValidationError);
    }
    if issue.text_content.as_str().unicode_len() == 0 && issue.html_content.as_str().unicode_len() == 0 {
        return Err(PublishError::ValidationError);
    }
    Ok(())
}

/// Whether a stored address can be sent to.
pub fn is_well_formed_email(email: &String) -> (r: bool)
    ensures
        r == well_formed_email(email@),
{
    let e = email.as_str();
    let n = e.unicode_len();
    let mut at: usize = 0;
    let mut count: usize = 0;
    let mut i: usize = 0;
    while i < n
        invariant
            n == e@.len(),
            e@ == email@,
            i <= n,
            count <= i,
            count == 0 ==> forall|j: int| 0 <= j < i ==> e@[j] != '@',
            count >= 1 ==> at < i && e@[at as int] == '@',
            count == 1 ==> forall|j: int| 0 <= j < i && j != at ==> e@[j] != '@',
            count >= 2 ==> exists|j: int| 0 <= j < i && j != at && e@[j] == '@',
        decreases n - i,
    {
        if e.get_char(i) == '@' {
            if count == 0 {
                at = i;
            }
            if count < 2 {
                count = count + 1;
            }
        }
        i = i + 1;
    }
    if count == 1 && at > 0 && at + 1 < n {
        return true;
    }
    proof {
        if well_formed_email(email@) {
            let w = choose|w: int|
                0 < w < e@.len() - 1 && #[trigger] e@[w] == '@' && forall|j: int|
                    0 <= j < e@.len() && j != w ==> e@[j] != '@';
            if count >= 2 {
                let j = choose|j: int| 0 <= j < i && j != at && e@[j] == '@';
                assert(at == w || j == w);
            } else if count == 1 {
                assert(at == w);
            } else {
                assert(e@[w] != '@');
            }
        }
    }
    false
}

/// The addresses that the issue goes to, in list order: confirmed
/// subscribers with a well-formed address. A pending subscriber is never
/// among them.
pub fn plan_delivery(store: &SubscriberStore) -> (r: DeliveryPlan)
    ensures
        addresses(r.recipients@) == recipients_of(store@),
        r.skipped == skipped_count(store@),
{
    let subs = store.subscribers();
    let mut recipients: Vec<String> = Vec::new();
    let mut skipped: usize = 0;
    let mut i: usize = 0;
    while i < subs.len()
        invariant
            subs@ == store@,
            i <= subs@.len(),
            addresses(recipients@) == recipients_of(subs@.subrange(0, i as int)),
            skipped == skipped_count(subs@.subrange(0, i as int)),
            skipped <= i,
        decreases subs.len() - i,
    {
        let ghost prefix = subs@.subrange(0, i as int + 1);
        assert(prefix.drop_last() =~= subs@.subrange(0, i as int));
        if subs[i].status == SubscriptionStatus::Confirmed {
            if is_well_formed_email(&subs[i].email) {
                recipients.push(subs[i].email.clone());
                assert(addresses(recipients@) =~= addresses(recipients@.drop_last()).push(subs@[i as int].email@));
            } else {
                skipped = skipped + 1;
            }
        }
        i = i + 1;
    }
    assert(subs@.subrange(0, subs@.len() as int) =~= subs@);
    DeliveryPlan { recipients, skipped }
}

/// Validates the issue, then plans its delivery.
pub fn publish(issue: &NewsletterIssue, store: &SubscriberStore) -> (r: Result<DeliveryPlan, PublishError>)
    ensures
        r is Ok <==> valid_issue(*issue),
        match r {
            Ok(plan) => addresses(plan.recipients@) == recipients_of(store@) && plan.skipped == skipped_count(store@),
            Err(e) => e == PublishError::ValidationError,
        },
{
    match validate_issue(issue) {
        Err(e) => Err(e),
        Ok(()) => Ok(plan_delivery(store)),
    }
}

/// What the publish route does for one request.
pub enum PublishAction {
    /// No live session: redirect to the login page, deliver nothing.
    RedirectToLogin,
    /// The issue was refused.
    Rejected(PublishError),
    /// Attempt one delivery to each recipient of the plan.
    Deliver(DeliveryPlan),
}

/// The publish route behind the login guard.
pub fn publish_newsletter(
    sessions: &SessionStore,
    session_cookie: Option<u128>,
    issue: &NewsletterIssue,
    store: &SubscriberStore,
) -> (r: PublishAction)
    ensures
        access_decision(sessions@, session_cookie) is RedirectToLogin ==> r is RedirectToLogin,
        access_decision(sessions@, session_cookie) is Proceed ==> match r {
            PublishAction::RedirectToLogin => false,
            PublishAction::Rejected(e) => !valid_issue(*issue) && e == PublishError::ValidationError,
            PublishAction::Deliver(plan) => valid_issue(*issue) && addresses(plan.recipients@) == recipients_of(store@)
                && plan.skipped == skipped_count(store@),
        },
{
    match reject_anonymous_users(sessions, session_cookie) {
        AccessDecision::RedirectToLogin => PublishAction::RedirectToLogin,
        AccessDecision::Proceed(_) => match publish(issue, store) {
            Ok(plan) => PublishAction::Deliver(plan),
            Err(e) => PublishAction::Rejected(e),
        },
    }
}

/// Where the answer to a publish request goes, whether or not the issue went out.
pub fn publish_redirect() -> (r: Redirect)
    ensures
        r.location@ == NEWSLETTERS_PATH@,
{
    redirect_to(NEWSLETTERS_PATH)
}

/// Answers a refused issue: a validation failure leaves its message in the
/// flash and redirects to the publish page; a store failure changes nothing
/// and comes back as the error.
pub fn reject_issue(e: PublishError, flash: &mut FlashSlot) -> (r: Result<Redirect, PublishError>)
    ensures
        e == PublishError::ValidationError ==> r is Ok && r->Ok_0.location@ == NEWSLETTERS_PATH@
            && final(flash)@ == Some(INVALID_ISSUE_MESSAGE@),
        e == PublishError::UnexpectedError ==> r == Err::<Redirect, PublishError>(e) && final(flash)@ == old(flash)@,
{
    match e {
        PublishError::ValidationError => {
            flash.set_flash(String::from_str(INVALID_ISSUE_MESSAGE));
            Ok(publish_redirect())
        },
        PublishError::UnexpectedError => Err(e),
    }
}

/// Counts the outcomes of the delivery attempts of `plan`, one per recipient
/// in order (`true` for a success), and leaves the success flash, which is
/// shown whatever failed.
pub fn finish_publish(plan: &DeliveryPlan, outcomes: &Vec<bool>, flash: &mut FlashSlot) -> (r: DeliveryReport)
    requires
        outcomes@.len() == plan.recipients@.len(),
    ensures
        r.attempted == outcomes@.len(),
        r.succeeded == successes(outcomes@),
        r.failed == outcomes@.len() - successes(outcomes@),
        r.skipped == plan.skipped,
        final(flash)@ == Some(PUBLISHED_MESSAGE@),
{
    let mut succeeded: usize = 0;
    let mut i: usize = 0;
    while i < outcomes.len()
        invariant
            i <= outcomes@.len(),
            succeeded == successes(outcomes@.subrange(0, i as int)),
            succeeded <= i,
        decreases outcomes.len() - i,
    {
        assert(outcomes@.subrange(0, i as int + 1).drop_last() =~= outcomes@.subrange(0, i as int));
        if outcomes[i] {
            succeeded = succeeded + 1;
        }
        i = i + 1;
    }
    assert(outcomes@.subrange(0, outcomes@.len() as int) =~= outcomes@);
    flash.set_flash(String::from_str(PUBLISHED_MESSAGE));
    DeliveryReport {
        attempted: outcomes.len(),
        succeeded,
        failed: outcomes.len() - succeeded,
        skipped: plan.skipped,
    }
}

} // verus!
