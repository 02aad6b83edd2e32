use vstd::prelude::*;
use vstd::string::*;

use crate::domain::subscriber_email::email_is_valid;
use crate::domain::subscriber_name::{grapheme_count, name_is_valid};
use crate::domain::{SubscriberEmail, SubscriberName};
use crate::email_client::DeliveryError;
use crate::token::{is_token, token_check};
use crate::registry::{
    has_email, has_token, subscriber_index, SubscriberRecord, TokenEntry, token_subscriber, PersistenceError, Registry, RegistryView,
    SubscriptionStatus,
};

verus! {

/// The subject line of every confirmation email.
pub open spec fn confirmation_subject() -> Seq<char> {
    "Welcome!"@
}

/// The link that redeems `token`, under the public base URL `base`.
pub open spec fn confirmation_link(base: Seq<char>, token: Seq<char>) -> Seq<char> {
    base + "/subscriptions/confirm?token="@ + token
}

/// The HTML body of the confirmation email carrying `link`.
pub open spec fn confirmation_html(link: Seq<char>) -> Seq<char> {
    "Welcome to our newsletter!<br />Click <a href=\""@ + link
        + "\">here</a> to confirm your subscription."@
}

/// The fields of a subscription request; a field the request lacked is `None`.
pub struct FormData {
    pub email: Option<String>,
    pub name: Option<String>,
}

/// Both fields are present and valid.
pub open spec fn form_is_valid(form: FormData) -> bool {
    &&& form.email matches Some(e) && email_is_valid(e@)
    &&& form.name matches Some(n) && name_is_valid(n@, grapheme_count(n@))
}

/// Whether a subscription for `email` sends a confirmation email: for a new
/// or a pending subscriber, not for a confirmed one.
pub open spec fn sends_confirmation(v: RegistryView, email: Seq<char>) -> bool {
    match subscriber_index(v.subscribers, email) {
        None => true,
        Some(i) => v.subscribers[i].status == SubscriptionStatus::PendingConfirmation,
    }
}

/// The registry after a valid subscription for `(email, name)` that issues
/// `token`: a new subscriber is stored pending; a pending one keeps its
/// record and gets the token too; a confirmed one is left as it is.
pub open spec fn after_subscribe(
    v: RegistryView,
    email: Seq<char>,
    name: Seq<char>,
    token: Seq<char>,
) -> RegistryView {
    match subscriber_index(v.subscribers, email) {
        None => v.with_subscriber(email, name).with_token(v.subscribers.len() as int, token),
        Some(i) => if v.subscribers[i].status == SubscriptionStatus::Confirmed {
            v
        } else {
            v.with_token(i, token)
        },
    }
}

/// The registry after redeeming `token`: its subscriber is confirmed.
pub open spec fn after_confirm(v: RegistryView, token: Seq<char>) -> RegistryView {
    match token_subscriber(v.tokens, token) {
        None => v,
        Some(i) => v.with_confirmed(i),
    }
}

/// Why a subscription failed.
#[derive(Debug)]
pub enum SubscribeError {
    /// A field is missing or malformed; the message says which rule failed.
    Validation(String),
    /// The registry refused a write.
    Persistence(PersistenceError),
    /// The token handed in does not have the shape of a confirmation token.
    MalformedToken,
    /// The confirmation email could not be delivered.
    Delivery(DeliveryError),
}

impl SubscribeError {
    pub open spec fn status(&self) -> u16 {
        if self is Validation {
            400
        } else {
            500
        }
    }

    /// The HTTP status a caller answers with: 400 for bad input, 500 otherwise.
    pub fn status_code(&self) -> (r: u16)
        ensures
            r == self.status(),
    {
        match self {
            SubscribeError::Validation(_) => 400,
            _ => 500,
        }
    }
}

/// Why a confirmation failed. Both are the client's fault.
#[derive(Debug, Clone, Copy, PartialEq, Eq, Structural)]
pub enum ConfirmError {
    /// No token, or an empty one.
    Validation,
    /// The token was never issued.
    TokenNotFound,
}

impl ConfirmError {
    /// The HTTP status a caller answers with.
    pub fn status_code(&self) -> (r: u16)
        ensures
            r == (if *self is Validation {
                400u16
            } else {
                401u16
            }),
    {
        match self {
            ConfirmError::Validation => 400,
            ConfirmError::TokenNotFound => 401,
        }
    }
}

/// The email that asks a subscriber to confirm.
pub struct ConfirmationEmail {
    pub recipient: SubscriberEmail,
    pub subject: String,
    pub html_body: String,
}

/// The link that redeems `token`.
pub fn confirmation_link_for(base_url: &str, token: &str) -> (r: String)
    ensures
        r@ == confirmation_link(base_url@, token@),
{
    let r = String::from_str(base_url).concat("/subscriptions/confirm?token=").concat(token);
    r
}

/// The HTML body that carries `link`.
pub fn confirmation_html_for(link: &str) -> (r: String)
    ensures
        r@ == confirmation_html(link@),
{
    String::from_str("Welcome to our newsletter!<br />Click <a href=\"").concat(link).concat(
        "\">here</a> to confirm your subscription.",
    )
}

/// Validates the form and records the subscription, issuing `token`. On
/// success returns the confirmation email to send, or `None` when the
/// subscriber is already confirmed. Nothing is written when the form is
/// rejected, or the token is malformed or was already issued.
pub fn subscribe(registry: &mut Registry, form: FormData, token: String, base_url: &str) -> (r:
    Result<Option<ConfirmationEmail>, SubscribeError>)
    requires
        old(registry)@.wf(),
    ensures
        final(registry)@.wf(),
        !form_is_valid(form) ==> (r matches Err(SubscribeError::Validation(_))) && final(registry)@ == old(registry)@,
        form_is_valid(form) && !is_token(token@) ==> (r matches Err(
            SubscribeError::MalformedToken,
        )) && final(registry)@ == old(registry)@,
        form_is_valid(form) && is_token(token@) && has_token(old(registry)@.tokens, token@) ==> (
        r matches Err(SubscribeError::Persistence(PersistenceError::DuplicateToken)))
            && final(registry)@ == old(registry)@,
        form_is_valid(form) && is_token(token@) && !has_token(old(registry)@.tokens, token@) ==> {
            let e = form.email->0@;
            let n = form.name->0@;
            &&& final(registry)@ == after_subscribe(old(registry)@, e, n, token@)
            &&& sends_confirmation(old(registry)@, e) ==> (r matches Ok(Some(m)) && m.recipient@
                == e && m.subject@ == confirmation_subject() && m.html_body@ == confirmation_html(
                confirmation_link(base_url@, token@),
            ))
            &&& !sends_confirmation(old(registry)@, e) ==> r matches Ok(None)
        },
{
    let ghost v = registry@;
    let FormData { email, name } = form;
    proof {
        reveal_strlit("Email is missing.");
        reveal_strlit("Name is missing.");
    }
    let email = match email {
        Some(e) => e,
        None => return Err(SubscribeError::Validation(String::from_str("Email is missing."))),
    };
    let name = match name {
        Some(n) => n,
        None => return Err(SubscribeError::Validation(String::from_str("Name is missing."))),
    };
    let email = match SubscriberEmail::parse(email) {
        Ok(e) => e,
        Err(m) => return Err(SubscribeError::Validation(m)),
    };
    let name = match SubscriberName::parse(name) {
        Ok(n) => n,
        Err(m) => return Err(SubscribeError::Validation(m)),
    };
    if !token_check(token.as_str()) {
        return Err(SubscribeError::MalformedToken);
    }
    if registry.find_subscriber_by_token(token.as_str()).is_some() {
        return Err(SubscribeError::Persistence(PersistenceError::DuplicateToken));
    }
    let (id, status) = registry.create_or_get_subscriber(&email, &name);
    if status == SubscriptionStatus::Confirmed {
        return Ok(None);
    }
    let link = confirmation_link_for(base_url, token.as_str());
    match registry.create_token(id, token) {
        Ok(()) => {},
        Err(e) => return Err(SubscribeError::Persistence(e)),
    }
    let html_body = confirmation_html_for(link.as_str());
    Ok(Some(ConfirmationEmail { recipient: email, subject: String::from_str("Welcome!"), html_body }))
}

/// What a subscription reports once its confirmation email was attempted.
pub open spec fn outcome_after_delivery(delivery: Result<(), DeliveryError>) -> Result<
    (),
    SubscribeError,
> {
    match delivery {
        Ok(()) => Ok(()),
        Err(d) => Err(SubscribeError::Delivery(d)),
    }
}

/// The result of a subscription once its confirmation email was attempted:
/// a failed delivery fails the subscription, and what was stored stays.
pub fn delivery_result(delivery: Result<(), DeliveryError>) -> (r: Result<(), SubscribeError>)
    ensures
        r == outcome_after_delivery(delivery),
{
    match delivery {
        Ok(()) => Ok(()),
        Err(d) => Err(SubscribeError::Delivery(d)),
    }
}

/// Redeems a confirmation token: its subscriber becomes confirmed. A
/// confirmed subscriber stays so, and the token stays valid.
pub fn confirm(registry: &mut Registry, token: Option<String>) -> (r: Result<(), ConfirmError>)
    requires
        old(registry)@.wf(),
    ensures
        final(registry)@.wf(),
        match token {
            None => r == Err::<(), _>(ConfirmError::Validation) && final(registry)@ == old(registry)@,
            Some(t) => if t@.len() == 0 {
                r == Err::<(), _>(ConfirmError::Validation) && final(registry)@ == old(registry)@
            } else if token_subscriber(old(registry)@.tokens, t@) is None {
                r == Err::<(), _>(ConfirmError::TokenNotFound) && final(registry)@ == old(registry)@
            } else {
                r == Ok::<(), ConfirmError>(()) && final(registry)@ == after_confirm(
                    old(registry)@,
                    t@,
                )
            },
        },
{
    let token = match token {
        Some(t) => t,
        None => return Err(ConfirmError::Validation),
    };
    if token.as_str().unicode_len() == 0 {
        return Err(ConfirmError::Validation);
    }
    match registry.find_subscriber_by_token(token.as_str()) {
        None => Err(ConfirmError::TokenNotFound),
        Some(id) => {
            proof {
                let k = choose|k: int|
                    0 <= k < registry@.tokens.len() && (#[trigger] registry@.tokens[k]).token
                        == token@;
                assert(registry@.tokens[k].subscriber < registry@.subscribers.len());
            }
            registry.confirm_subscriber(id);
            Ok(())
        },
    }
}

/// Submitting the same valid `(email, name)` twice while the address is not
/// confirmed keeps a single record for it: the second submission stores no
/// subscriber, only its token, and sends the confirmation email again.
pub proof fn lemma_resubmission_is_idempotent(
    v: RegistryView,
    email: Seq<char>,
    name: Seq<char>,
    t1: Seq<char>,
    t2: Seq<char>,
)
    requires
        v.wf(),
        sends_confirmation(v, email),
        t1 != t2,
        !has_token(v.tokens, t1),
        !has_token(v.tokens, t2),
    ensures
        ({
            let v1 = after_subscribe(v, email, name, t1);
            let v2 = after_subscribe(v1, email, name, t2);
            &&& sends_confirmation(v1, email)
            &&& !has_token(v1.tokens, t2)
            &&& subscriber_index(v1.subscribers, email) is Some
            &&& v2.subscribers == v1.subscribers
            &&& subscriber_index(v2.subscribers, email) == subscriber_index(v1.subscribers, email)
            &&& (subscriber_index(v.subscribers, email) matches Some(i) ==> subscriber_index(
                v1.subscribers,
                email,
            ) == Some(i))
            &&& v2.tokens == v1.tokens.push(
                TokenEntry { token: t2, subscriber: subscriber_index(v1.subscribers, email)->0 },
            )
        }),
{
    let v1 = after_subscribe(v, email, name, t1);
    match subscriber_index(v.subscribers, email) {
        None => {
            let last = v.subscribers.len() as int;
            assert(v1.subscribers[last].email == email);
            assert(has_email(v1.subscribers, email));
            let j = subscriber_index(v1.subscribers, email)->0;
            if j < last {
                assert(v.subscribers[j] == v1.subscribers[j]);
                assert(has_email(v.subscribers, email));
            }
        },
        Some(i) => {},
    }
    if has_token(v1.tokens, t2) {
        let k = choose|k: int| 0 <= k < v1.tokens.len() && (#[trigger] v1.tokens[k]).token == t2;
        if k < v.tokens.len() {
            assert(v.tokens[k] == v1.tokens[k]);
        }
    }
}

/// Redeeming a valid token twice: both redemptions find the token, the
/// subscriber ends confirmed, and the second changes nothing.
pub proof fn lemma_confirm_is_idempotent(v: RegistryView, t: Seq<char>)
    requires
        v.wf(),
        has_token(v.tokens, t),
    ensures
        ({
            let v1 = after_confirm(v, t);
            let id = token_subscriber(v.tokens, t)->0;
            &&& token_subscriber(v.tokens, t) is Some
            &&& token_subscriber(v1.tokens, t) == token_subscriber(v.tokens, t)
            &&& v1.subscribers[id].status == SubscriptionStatus::Confirmed
            &&& after_confirm(v1, t) == v1
        }),
{
    let v1 = after_confirm(v, t);
    let id = token_subscriber(v.tokens, t)->0;
    let k = choose|k: int| 0 <= k < v.tokens.len() && (#[trigger] v.tokens[k]).token == t;
    assert(0 <= id < v.subscribers.len());
    assert(v1.with_confirmed(id).subscribers =~= v1.subscribers);
}

/// Subscribing a new address and then redeeming the token that its
/// confirmation link carries leaves one more subscriber, confirmed, with
/// the submitted email and name.
pub proof fn lemma_subscribe_then_confirm(
    v: RegistryView,
    email: Seq<char>,
    name: Seq<char>,
    token: Seq<char>,
    base: Seq<char>,
)
    requires
        v.wf(),
        !has_email(v.subscribers, email),
        !has_token(v.tokens, token),
    ensures
        ({
            let link = confirmation_link(base, token);
            let v2 = after_confirm(after_subscribe(v, email, name, token), token);
            &&& link.subrange(link.len() - token.len(), link.len() as int) == token
            &&& v2.subscribers.len() == v.subscribers.len() + 1
            &&& v2.subscribers.last() == SubscriberRecord {
                email,
                name,
                status: SubscriptionStatus::Confirmed,
            }
        }),
{
    let link = confirmation_link(base, token);
    assert(link.subrange(link.len() - token.len(), link.len() as int) =~= token);
    let v1 = after_subscribe(v, email, name, token);
    let last = v.tokens.len() as int;
    assert(v1.tokens[last].token == token);
    assert(has_token(v1.tokens, token));
    let k = choose|k: int| 0 <= k < v1.tokens.len() && (#[trigger] v1.tokens[k]).token == token;
    if k < last {
        assert(v.tokens[k] == v1.tokens[k]);
    }
    assert(token_subscriber(v1.tokens, token) == Some(v.subscribers.len() as int));
}

/// A subscription of a new address whose confirmation email then fails to
/// be delivered reports a server-side delivery failure, while the stored
/// subscriber stays pending with the submitted email and name and the issued
/// token stays bound to it: nothing is rolled back.
pub proof fn lemma_failed_delivery_keeps_pending_record(
    v: RegistryView,
    email: Seq<char>,
    name: Seq<char>,
    token: Seq<char>,
    failure: DeliveryError,
)
    requires
        v.wf(),
        !has_email(v.subscribers, email),
        !has_token(v.tokens, token),
    ensures
        ({
            let v1 = after_subscribe(v, email, name, token);
            let id = v.subscribers.len() as int;
            let outcome = outcome_after_delivery(Err(failure));
            &&& outcome matches Err(SubscribeError::Delivery(d)) && d == failure
            &&& outcome->Err_0.status() == 500
            &&& subscriber_index(v1.subscribers, email) == Some(id)
            &&& v1.subscribers[id] == SubscriberRecord {
                email,
                name,
                status: SubscriptionStatus::PendingConfirmation,
            }
            &&& token_subscriber(v1.tokens, token) == Some(id)
        }),
{
    let v1 = after_subscribe(v, email, name, token);
    let id = v.subscribers.len() as int;
    assert(v1.subscribers[id].email == email);
    assert(has_email(v1.subscribers, email));
    let j = choose|j: int| 0 <= j < v1.subscribers.len() && (#[trigger] v1.subscribers[j]).email == email;
    if j < id {
        assert(v.subscribers[j] == v1.subscribers[j]);
    }
    let last = v.tokens.len() as int;
    assert(v1.tokens[last].token == token);
    assert(has_token(v1.tokens, token));
    let k = choose|k: int| 0 <= k < v1.tokens.len() && (#[trigger] v1.tokens[k]).token == token;
    if k < last {
        assert(v.tokens[k] == v1.tokens[k]);
    }
}

} // verus!
