use vstd::prelude::*;

use crate::domain::{SubscriberEmail, SubscriberName};

verus! {

/// Where a subscriber stands. `Confirmed` is final.
#[derive(Debug, Clone, Copy, PartialEq, Eq, Structural)]
pub enum SubscriptionStatus {
    PendingConfirmation,
    Confirmed,
}

/// A stored subscriber, as the contracts see it.
pub struct SubscriberRecord {
    pub email: Seq<char>,
    pub name: Seq<char>,
    pub status: SubscriptionStatus,
}

/// A stored confirmation token and the subscriber it belongs to.
pub struct TokenEntry {
    pub token: Seq<char>,
    pub subscriber: int,
}

/// The contents of a registry: subscribers by id (their position), and the
/// tokens issued so far.
pub struct RegistryView {
    pub subscribers: Seq<SubscriberRecord>,
    pub tokens: Seq<TokenEntry>,
}

pub open spec fn has_email(subs: Seq<SubscriberRecord>, email: Seq<char>) -> bool {
    exists|i: int| 0 <= i < subs.len() && (#[trigger] subs[i]).email == email
}

/// The id of the subscriber with `email`, if there is one.
pub open spec fn subscriber_index(subs: Seq<SubscriberRecord>, email: Seq<char>) -> Option<int> {
    if has_email(subs, email) {
        Some(choose|i: int| 0 <= i < subs.len() && (#[trigger] subs[i]).email == email)
    } else {
        None
    }
}

pub open spec fn has_token(tokens: Seq<TokenEntry>, token: Seq<char>) -> bool {
    exists|i: int| 0 <= i < tokens.len() && (#[trigger] tokens[i]).token == token
}

/// The subscriber that `token` was issued to, if it was issued.
pub open spec fn token_subscriber(tokens: Seq<TokenEntry>, token: Seq<char>) -> Option<int> {
    if has_token(tokens, token) {
        Some(
            tokens[choose|i: int| 0 <= i < tokens.len() && (#[trigger] tokens[i]).token == token].subscriber,
        )
    } else {
        None
    }
}

impl RegistryView {
    /// At most one subscriber per email, at most one entry per token, and
    /// every token bound to a stored subscriber.
    pub open spec fn wf(self) -> bool {
        &&& forall|i: int, j: int|
            0 <= i < j < self.subscribers.len() ==> (#[trigger] self.subscribers[i]).email
                != (#[trigger] self.subscribers[j]).email
        &&& forall|i: int, j: int|
            0 <= i < j < self.tokens.len() ==> (#[trigger] self.tokens[i]).token != (
            #[trigger] self.tokens[j]).token
        &&& forall|i: int|
            0 <= i < self.tokens.len() ==> 0 <= (#[trigger] self.tokens[i]).subscriber
                < self.subscribers.len()
    }

    /// The view with a new pending subscriber at the end.
    pub open spec fn with_subscriber(self, email: Seq<char>, name: Seq<char>) -> RegistryView {
        RegistryView {
            subscribers: self.subscribers.push(
                SubscriberRecord { email, name, status: SubscriptionStatus::PendingConfirmation },
            ),
            tokens: self.tokens,
        }
    }

    /// The view with `token` issued to subscriber `id`.
    pub open spec fn with_token(self, id: int, token: Seq<char>) -> RegistryView {
        RegistryView {
            subscribers: self.subscribers,
            tokens: self.tokens.push(TokenEntry { token, subscriber: id }),
        }
    }

    /// The view with subscriber `id` confirmed.
    pub open spec fn with_confirmed(self, id: int) -> RegistryView {
        RegistryView {
            subscribers: self.subscribers.update(
                id,
                SubscriberRecord { status: SubscriptionStatus::Confirmed, ..self.subscribers[id] },
            ),
            tokens: self.tokens,
        }
    }
}

/// A stored subscriber. Its id is its position in the registry.
pub struct Subscriber {
    pub email: String,
    pub name: String,
    pub status: SubscriptionStatus,
}

impl View for Subscriber {
    type V = SubscriberRecord;

    open spec fn view(&self) -> SubscriberRecord {
        SubscriberRecord { email: self.email@, name: self.name@, status: self.status }
    }
}

pub struct TokenRecord {
    pub token: String,
    pub subscriber_id: usize,
}

impl View for TokenRecord {
    type V = TokenEntry;

    open spec fn view(&self) -> TokenEntry {
        TokenEntry { token: self.token@, subscriber: self.subscriber_id as int }
    }
}

/// Why the store refused a write.
#[derive(Debug, Clone, Copy, PartialEq, Eq, Structural)]
pub enum PersistenceError {
    /// The token was already issued.
    DuplicateToken,
    /// No subscriber has this id.
    UnknownSubscriber,
}

/// Equality of two strings, character by character.
pub fn str_eq(a: &str, b: &str) -> (r: bool)
    ensures
        r == (a@ == b@),
{
    let n = a.unicode_len();
    if n != b.unicode_len() {
        return false;
    }
    let mut i: usize = 0;
    while i < n
        invariant
            n == a@.len(),
            n == b@.len(),
            i <= n,
            forall|k: int| 0 <= k < i ==> a@[k] == b@[k],
        decreases n - i,
    {
        if a.get_char(i) != b.get_char(i) {
            return false;
        }
        i += 1;
    }
    proof {
        assert(a@ =~= b@);
    }
    true
}

/// The subscribers and their confirmation tokens, with email and token
/// uniqueness kept by every write.
pub struct Registry {
    subscribers: Vec<Subscriber>,
    tokens: Vec<TokenRecord>,
}

impl View for Registry {
    type V = RegistryView;

    closed spec fn view(&self) -> RegistryView {
        RegistryView {
            subscribers: self.subscribers@.map_values(|s: Subscriber| s@),
            tokens: self.tokens@.map_values(|t: TokenRecord| t@),
        }
    }
}

impl Registry {
    pub fn new() -> (r: Registry)
        ensures
            r@.subscribers.len() == 0,
            r@.tokens.len() == 0,
            r@.wf(),
    {
        Registry { subscribers: Vec::new(), tokens: Vec::new() }
    }

    pub fn subscriber_count(&self) -> (n: usize)
        ensures
            n == self@.subscribers.len(),
    {
        self.subscribers.len()
    }

    pub fn token_count(&self) -> (n: usize)
        ensures
            n == self@.tokens.len(),
    {
        self.tokens.len()
    }

    /// The subscriber with id `id`.
    pub fn subscriber(&self, id: usize) -> (s: &Subscriber)
        requires
            id < self@.subscribers.len(),
        ensures
            s@ == self@.subscribers[id as int],
    {
        &self.subscribers[id]
    }

    /// The id of the subscriber with `email`, if there is one.
    pub fn find_by_email(&self, email: &str) -> (r: Option<usize>)
        requires
            self@.wf(),
        ensures
            r matches Some(i) ==> subscriber_index(self@.subscribers, email@) == Some(i as int),
            r is None ==> subscriber_index(self@.subscribers, email@) is None,
    {
        let ghost v = self@;
        let mut i: usize = 0;
        while i < self.subscribers.len()
            invariant
                v == self@,
                v.wf(),
                i <= self.subscribers.len(),
                forall|k: int| 0 <= k < i ==> (#[trigger] v.subscribers[k]).email != email@,
            decreases self.subscribers.len() - i,
        {
            if str_eq(self.subscribers[i].email.as_str(), email) {
                proof {
                    assert(v.subscribers[i as int].email == email@);
                    let j = choose|j: int|
                        0 <= j < v.subscribers.len() && (#[trigger] v.subscribers[j]).email
                            == email@;
                    if j != i {
                        if j < i {
                            assert(v.subscribers[j].email != v.subscribers[i as int].email);
                        } else {
                            assert(v.subscribers[i as int].email != v.subscribers[j].email);
                        }
                    }
                }
                return Some(i);
            }
            i += 1;
        }
        None
    }

    /// The id of the subscriber that `token` was issued to, if it was issued.
    pub fn find_subscriber_by_token(&self, token: &str) -> (r: Option<usize>)
        requires
            self@.wf(),
        ensures
            r matches Some(i) ==> token_subscriber(self@.tokens, token@) == Some(i as int),
            r is None ==> token_subscriber(self@.tokens, token@) is None,
    {
        let ghost v = self@;
        let mut i: usize = 0;
        while i < self.tokens.len()
            invariant
                v == self@,
                v.wf(),
                i <= self.tokens.len(),
                forall|k: int| 0 <= k < i ==> (#[trigger] v.tokens[k]).token != token@,
            decreases self.tokens.len() - i,
        {
            if str_eq(self.tokens[i].token.as_str(), token) {
                proof {
                    assert(v.tokens[i as int].token == token@);
                    let j = choose|j: int|
                        0 <= j < v.tokens.len() && (#[trigger] v.tokens[j]).token == token@;
                    if j != i {
                        if j < i {
                            assert(v.tokens[j].token != v.tokens[i as int].token);
                        } else {
                            assert(v.tokens[i as int].token != v.tokens[j].token);
                        }
                    }
                }
                return Some(self.tokens[i].subscriber_id);
            }
            i += 1;
        }
        None
    }

    /// The id and status of the subscriber with `email`; a new pending
    /// subscriber is stored first where there is none.
    pub fn create_or_get_subscriber(&mut self, email: &SubscriberEmail, name: &SubscriberName) -> (r:
        (usize, SubscriptionStatus))
        requires
            old(self)@.wf(),
        ensures
            final(self)@.wf(),
            match subscriber_index(old(self)@.subscribers, email@) {
                None => final(self)@ == old(self)@.with_subscriber(email@, name@) && r.0
                    == old(self)@.subscribers.len() && r.1
                    == SubscriptionStatus::PendingConfirmation,
                Some(i) => final(self)@ == old(self)@ && r.0 == i && r.1
                    == old(self)@.subscribers[i].status,
            },
    {
        match self.find_by_email(email.as_ref()) {
            Some(i) => (i, self.subscribers[i].status),
            None => {
                let ghost v = self@;
                let id = self.subscribers.len();
                self.subscribers.push(
                    Subscriber {
                        email: email.as_ref().to_owned(),
                        name: name.as_ref().to_owned(),
                        status: SubscriptionStatus::PendingConfirmation,
                    },
                );
                proof {
                    assert(self@.subscribers =~= v.with_subscriber(email@, name@).subscribers);
                    assert(self@.tokens =~= v.tokens);
                    assert forall|k: int| 0 <= k < v.subscribers.len() implies (
                    #[trigger] v.subscribers[k]).email != email@ by {
                        if v.subscribers[k].email == email@ {
                            assert(has_email(v.subscribers, email@));
                        }
                    }
                }
                (id, SubscriptionStatus::PendingConfirmation)
            },
        }
    }

    /// Stores `token` for subscriber `id`; a token already issued is refused.
    pub fn create_token(&mut self, id: usize, token: String) -> (r: Result<(), PersistenceError>)
        requires
            old(self)@.wf(),
        ensures
            final(self)@.wf(),
            id >= old(self)@.subscribers.len() ==> r == Err::<(), _>(
                PersistenceError::UnknownSubscriber,
            ) && final(self)@ == old(self)@,
            id < old(self)@.subscribers.len() && has_token(old(self)@.tokens, token@) ==> r
                == Err::<(), _>(PersistenceError::DuplicateToken) && final(self)@ == old(self)@,
            id < old(self)@.subscribers.len() && !has_token(old(self)@.tokens, token@) ==> r
                == Ok::<(), PersistenceError>(()) && final(self)@ == old(self)@.with_token(
                id as int,
                token@,
            ),
    {
        if id >= self.subscribers.len() {
            return Err(PersistenceError::UnknownSubscriber);
        }
        if self.find_subscriber_by_token(token.as_str()).is_some() {
            return Err(PersistenceError::DuplicateToken);
        }
        let ghost v = self@;
        self.tokens.push(TokenRecord { token, subscriber_id: id });
        proof {
            assert(self@.tokens =~= v.with_token(id as int, token@).tokens);
            assert(self@.subscribers =~= v.subscribers);
            assert forall|k: int| 0 <= k < v.tokens.len() implies (#[trigger] v.tokens[k]).token
                != token@ by {
                if v.tokens[k].token == token@ {
                    assert(has_token(v.tokens, token@));
                }
            }
        }
        Ok(())
    }

    /// Marks subscriber `id` confirmed; confirming twice changes nothing more.
    pub fn confirm_subscriber(&mut self, id: usize)
        requires
            old(self)@.wf(),
            id < old(self)@.subscribers.len(),
        ensures
            final(self)@.wf(),
            final(self)@ == old(self)@.with_confirmed(id as int),
    {
        let ghost v = self@;
        let email = self.subscribers[id].email.clone();
        let name = self.subscribers[id].name.clone();
        self.subscribers.set(id, Subscriber { email, name, status: SubscriptionStatus::Confirmed });
        proof {
            assert(self@.subscribers =~= v.with_confirmed(id as int).subscribers);
            assert(self@.tokens =~= v.tokens);
        }
    }
}

} // verus!
