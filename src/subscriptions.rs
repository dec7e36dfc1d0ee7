use vstd::prelude::*;

verus! {

/// Where a subscriber stands in the double opt-in.
#[derive(Clone, Copy, Debug, PartialEq, Eq, Structural)]
pub enum SubscriptionStatus {
    PendingConfirmation,
    Confirmed,
}

/// One subscriber and the token that confirms it.
#[derive(Clone, Debug)]
pub struct Subscriber {
    pub id: u64,
    pub email: String,
    pub name: String,
    pub status: SubscriptionStatus,
    pub confirmation_token: String,
}

/// Why a confirmation link was refused.
#[derive(Clone, Copy, Debug, PartialEq, Eq, Structural)]
pub enum ConfirmationError {
    TokenNotFound,
    UnexpectedError,
}

/// Position of the first subscriber at or after `i` holding `token`.
pub open spec fn token_index_from(subs: Seq<Subscriber>, token: Seq<char>, i: int) -> Option<int>
    decreases subs.len() - i,
{
    if i < 0 || i >= subs.len() {
        None
    } else if subs[i].confirmation_token@ == token {
        Some(i)
    } else {
        token_index_from(subs, token, i + 1)
    }
}

pub open spec fn token_index(subs: Seq<Subscriber>, token: Seq<char>) -> Option<int> {
    token_index_from(subs, token, 0)
}

/// The subscribers with the one at `k` confirmed.
pub open spec fn confirmed_at(subs: Seq<Subscriber>, k: int) -> Seq<Subscriber> {
    subs.update(
        k,
        Subscriber {
            id: subs[k].id,
            email: subs[k].email,
            name: subs[k].name,
            status: SubscriptionStatus::Confirmed,
            confirmation_token: subs[k].confirmation_token,
        },
    )
}

/// What redeeming `token` leaves in the store: a pending subscriber becomes
/// confirmed; an unknown token or a confirmed subscriber changes nothing.
pub open spec fn after_confirm(subs: Seq<Subscriber>, token: Seq<char>) -> Seq<Subscriber> {
    match token_index(subs, token) {
        Some(k) => if subs[k].status == SubscriptionStatus::PendingConfirmation {
            confirmed_at(subs, k)
        } else {
            subs
        },
        None => subs,
    }
}

proof fn lemma_token_index_from(subs: Seq<Subscriber>, token: Seq<char>, i: int)
    requires
        0 <= i,
    ensures
        match token_index_from(subs, token, i) {
            Some(k) => i <= k < subs.len() && subs[k].confirmation_token@ == token,
            None => forall|j: int| i <= j < subs.len() ==> #[trigger] subs[j].confirmation_token@ != token,
        },
    decreases subs.len() - i,
{
    if i < subs.len() {
        lemma_token_index_from(subs, token, i + 1);
    }
}

/// The Subscriber Store: confirmation tokens are unique.
pub struct SubscriberStore {
    subscribers: Vec<Subscriber>,
}

impl View for SubscriberStore {
    type V = Seq<Subscriber>;

    closed spec fn view(&self) -> Seq<Subscriber> {
        self.subscribers@
    }
}

impl SubscriberStore {
    pub open spec fn wf(&self) -> bool {
        forall|i: int, j: int|
            0 <= i < self@.len() && 0 <= j < self@.len() && i != j
                ==> #[trigger] self@[i].confirmation_token@ != #[trigger] self@[j].confirmation_token@
    }

    pub fn new() -> (r: SubscriberStore)
        ensures
            r.wf(),
            r@ == Seq::<Subscriber>::empty(),
    {
        SubscriberStore { subscribers: Vec::new() }
    }

    /// The subscribers, in the order in which they were added.
    pub fn subscribers(&self) -> (r: &Vec<Subscriber>)
        ensures
            r@ == self@,
    {
        &self.subscribers
    }

    fn index_of_token(&self, token: &String) -> (r: Option<usize>)
        ensures
            match r {
                Some(k) => token_index(self@, token@) == Some(k as int),
                None => token_index(self@, token@) is None,
            },
    {
        let mut i: usize = 0;
        while i < self.subscribers.len()
            invariant
                i <= self.subscribers@.len(),
                self@ == self.subscribers@,
                token_index(self@, token@) == token_index_from(self@, token@, i as int),
            decreases self.subscribers.len() - i,
        {
            if self.subscribers[i].confirmation_token == *token {
                return Some(i);
            }
            i = i + 1;
        }
        None
    }

    /// Records a new subscriber, pending confirmation under `confirmation_token`.
    /// Refused (`false`, store unchanged) where the token is already in use.
    pub fn add_pending(&mut self, id: u64, email: String, name: String, confirmation_token: String) -> (r: bool)
        requires
            old(self).wf(),
        ensures
            final(self).wf(),
            r == (token_index(old(self)@, confirmation_token@) is None),
            r ==> final(self)@ == old(self)@.push(
                Subscriber {
                    id,
                    email,
                    name,
                    status: SubscriptionStatus::PendingConfirmation,
                    confirmation_token,
                },
            ),
            !r ==> final(self)@ == old(self)@,
    {
        if self.index_of_token(&confirmation_token).is_some() {
            return false;
        }
        proof {
            lemma_token_index_from(self@, confirmation_token@, 0);
        }
        self.subscribers.push(
            Subscriber { id, email, name, status: SubscriptionStatus::PendingConfirmation, confirmation_token },
        );
        true
    }

    /// Redeems a confirmation token. An unknown token gives `TokenNotFound`
    /// and changes nothing; a pending subscriber becomes confirmed; redeeming
    /// the token of a confirmed subscriber succeeds and writes nothing.
    /// Status only ever moves from pending to confirmed.
    pub fn confirm(&mut self, token: &String) -> (r: Result<(), ConfirmationError>)
        requires
            old(self).wf(),
        ensures
            final(self).wf(),
            r == (if token_index(old(self)@, token@) is Some {
                Ok::<(), ConfirmationError>(())
            } else {
                Err(ConfirmationError::TokenNotFound)
            }),
            final(self)@ == after_confirm(old(self)@, token@),
    {
        match self.index_of_token(token) {
            None => Err(ConfirmationError::TokenNotFound),
            Some(k) => {
                proof {
                    lemma_token_index_from(self@, token@, 0);
                }
                if self.subscribers[k].status == SubscriptionStatus::PendingConfirmation {
                    let ghost before = self@;
                    let s = Subscriber {
                        id: self.subscribers[k].id,
                        email: self.subscribers[k].email.clone(),
                        name: self.subscribers[k].name.clone(),
                        status: SubscriptionStatus::Confirmed,
                        confirmation_token: self.subscribers[k].confirmation_token.clone(),
                    };
                    self.subscribers.set(k, s);
                    assert(self@ =~= confirmed_at(before, k as int));
                }
                Ok(())
            },
        }
    }
}

} // verus!
