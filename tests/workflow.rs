use zero2prod::email_client::DeliveryError;
use zero2prod::registry::{PersistenceError, Registry, SubscriptionStatus};
use zero2prod::workflow::{
    confirm, confirmation_html_for, confirmation_link_for, delivery_result, subscribe,
    ConfirmError, FormData, SubscribeError,
};

const BASE: &str = "http://127.0.0.1:8000";

/// A well-formed token that starts with `prefix`.
fn tok(prefix: &str) -> String {
    format!("{:0<25}", prefix)
}

fn form(name: Option<&str>, email: Option<&str>) -> FormData {
    FormData {
        name: name.map(|s| s.to_string()),
        email: email.map(|s| s.to_string()),
    }
}

fn valid_form() -> FormData {
    form(Some("le guin"), Some("ursula_le_guin@gmail.com"))
}

fn token_of(link: &str) -> String {
    link.split("token=").nth(1).unwrap().to_string()
}

fn link_in(html: &str) -> String {
    let start = html.find("href=\"").unwrap() + 6;
    let end = html[start..].find('"').unwrap() + start;
    html[start..end].to_string()
}

#[test]
fn subscribe_returns_a_200_for_valid_form_data() {
    let mut reg = Registry::new();
    let r = subscribe(&mut reg, valid_form(), tok("tok1"), BASE);
    assert!(matches!(r, Ok(Some(_))));
    assert!(delivery_result(Ok(())).is_ok());
}

#[test]
fn subscribe_persists_the_new_subscriber() {
    let mut reg = Registry::new();
    subscribe(&mut reg, valid_form(), tok("tok1"), BASE).unwrap();
    assert_eq!(reg.subscriber_count(), 1);
    let saved = reg.subscriber(0);
    assert_eq!(saved.email, "ursula_le_guin@gmail.com");
    assert_eq!(saved.name, "le guin");
    assert_eq!(saved.status, SubscriptionStatus::PendingConfirmation);
}

#[test]
fn subscribe_returns_a_400_when_data_is_missing() {
    let test_cases = vec![
        (form(Some("le guin"), None), "missing the email"),
        (form(None, Some("ursula_le_guin@gmail.com")), "missing the name"),
        (form(None, None), "missing both name and email"),
    ];
    for (invalid_body, error_message) in test_cases {
        let mut reg = Registry::new();
        let r = subscribe(&mut reg, invalid_body, tok("tok"), BASE);
        let e = r.err().unwrap();
        assert_eq!(
            400,
            e.status_code(),
            "The API did not fail with 400 Bad Request when the payload was {}",
            error_message
        );
        assert_eq!(reg.subscriber_count(), 0);
        assert_eq!(reg.token_count(), 0);
    }
}

#[test]
fn subscribe_returns_a_400_when_fields_are_present_but_invalid() {
    let test_cases = vec![
        (form(Some(""), Some("ursula_le_guin@gmail.com")), "empty name"),
        (form(Some("Ursula"), Some("")), "empty email"),
        (form(Some("Ursula"), Some("definitely-not-an-email")), "invalid email"),
    ];
    for (body, description) in test_cases {
        let mut reg = Registry::new();
        let r = subscribe(&mut reg, body, tok("tok"), BASE);
        let e = r.err().unwrap();
        assert_eq!(
            400,
            e.status_code(),
            "The API did not return a 200 OK whe the payload was {}",
            description
        );
        assert_eq!(reg.subscriber_count(), 0);
    }
}

#[test]
fn subscribe_sends_a_confirmation_email_form_valid_data() {
    let mut reg = Registry::new();
    let mail = subscribe(&mut reg, valid_form(), tok("tok1"), BASE)
        .unwrap()
        .unwrap();
    assert_eq!(mail.recipient.as_ref(), "ursula_le_guin@gmail.com");
    assert_eq!(mail.subject, "Welcome!");
}

#[test]
fn subscribe_sends_a_confirmation_email_with_a_link() {
    let mut reg = Registry::new();
    let mail = subscribe(&mut reg, valid_form(), tok("abc123"), BASE)
        .unwrap()
        .unwrap();
    let link = link_in(&mail.html_body);
    assert_eq!(link, "http://127.0.0.1:8000/subscriptions/confirm?token=abc1230000000000000000000");
    assert_eq!(
        mail.html_body,
        "Welcome to our newsletter!<br />Click <a href=\"http://127.0.0.1:8000/subscriptions/confirm?token=abc1230000000000000000000\">here</a> to confirm your subscription."
    );
}

#[test]
fn confirmations_without_token_are_rejected_with_a_400() {
    let mut reg = Registry::new();
    let r = confirm(&mut reg, None);
    assert_eq!(r, Err(ConfirmError::Validation));
    assert_eq!(r.unwrap_err().status_code(), 400);
    assert_eq!(confirm(&mut reg, Some(String::new())), Err(ConfirmError::Validation));
}

#[test]
fn the_link_returned_by_subscribe_returns_a_200_if_called() {
    let mut reg = Registry::new();
    let mail = subscribe(&mut reg, valid_form(), tok("tok1"), BASE)
        .unwrap()
        .unwrap();
    let token = token_of(&link_in(&mail.html_body));
    assert_eq!(confirm(&mut reg, Some(token)), Ok(()));
}

#[test]
fn clicking_on_the_confirmation_link_confirms_a_subscriber() {
    let mut reg = Registry::new();
    let mail = subscribe(&mut reg, valid_form(), tok("tok1"), BASE)
        .unwrap()
        .unwrap();
    let token = token_of(&link_in(&mail.html_body));
    confirm(&mut reg, Some(token)).unwrap();
    let saved = reg.subscriber(0);
    assert_eq!(saved.email, "ursula_le_guin@gmail.com");
    assert_eq!(saved.name, "le guin");
    assert_eq!(saved.status, SubscriptionStatus::Confirmed);
}

#[test]
fn resubmitting_while_pending_keeps_one_record_and_resends() {
    let mut reg = Registry::new();
    subscribe(&mut reg, valid_form(), tok("tok1"), BASE).unwrap().unwrap();
    let second = subscribe(&mut reg, valid_form(), tok("tok2"), BASE).unwrap();
    assert!(second.is_some());
    assert_eq!(reg.subscriber_count(), 1);
    assert_eq!(reg.token_count(), 2);
    assert_eq!(reg.find_subscriber_by_token(&tok("tok1")), Some(0));
    assert_eq!(reg.find_subscriber_by_token(&tok("tok2")), Some(0));
}

#[test]
fn redeeming_a_token_twice_succeeds_both_times() {
    let mut reg = Registry::new();
    subscribe(&mut reg, valid_form(), tok("tok1"), BASE).unwrap();
    assert_eq!(confirm(&mut reg, Some(tok("tok1"))), Ok(()));
    assert_eq!(confirm(&mut reg, Some(tok("tok1"))), Ok(()));
    assert_eq!(reg.subscriber(0).status, SubscriptionStatus::Confirmed);
}

#[test]
fn subscribing_a_confirmed_address_sends_nothing() {
    let mut reg = Registry::new();
    subscribe(&mut reg, valid_form(), tok("tok1"), BASE).unwrap();
    confirm(&mut reg, Some(tok("tok1"))).unwrap();
    let r = subscribe(&mut reg, valid_form(), tok("tok2"), BASE);
    assert!(matches!(r, Ok(None)));
    assert_eq!(reg.subscriber_count(), 1);
    assert_eq!(reg.token_count(), 1);
    assert_eq!(reg.subscriber(0).status, SubscriptionStatus::Confirmed);
}

#[test]
fn a_failed_delivery_fails_the_subscription_but_keeps_the_record() {
    let mut reg = Registry::new();
    subscribe(&mut reg, valid_form(), tok("tok1"), BASE).unwrap().unwrap();
    let r = delivery_result(Err(DeliveryError::ProviderRejected(500)));
    let e = r.unwrap_err();
    assert!(matches!(e, SubscribeError::Delivery(DeliveryError::ProviderRejected(500))));
    assert_eq!(e.status_code(), 500);
    assert_eq!(reg.subscriber_count(), 1);
    assert_eq!(reg.subscriber(0).status, SubscriptionStatus::PendingConfirmation);
}

#[test]
fn confirming_an_unknown_token_changes_nothing() {
    let mut reg = Registry::new();
    subscribe(&mut reg, valid_form(), tok("tok1"), BASE).unwrap();
    let r = confirm(&mut reg, Some("unknown".to_string()));
    assert_eq!(r, Err(ConfirmError::TokenNotFound));
    assert_eq!(reg.subscriber(0).status, SubscriptionStatus::PendingConfirmation);
}

#[test]
fn a_token_issued_twice_is_refused() {
    let mut reg = Registry::new();
    subscribe(&mut reg, valid_form(), tok("tok1"), BASE).unwrap();
    let other = form(Some("Ada"), Some("ada@example.org"));
    let r = subscribe(&mut reg, other, tok("tok1"), BASE);
    assert!(matches!(
        r,
        Err(SubscribeError::Persistence(PersistenceError::DuplicateToken))
    ));
    assert_eq!(reg.subscriber_count(), 1);
    assert_eq!(reg.find_by_email("ada@example.org"), None);
}

#[test]
fn distinct_addresses_get_distinct_records() {
    let mut reg = Registry::new();
    subscribe(&mut reg, valid_form(), tok("tok1"), BASE).unwrap();
    subscribe(&mut reg, form(Some("Ada"), Some("ada@example.org")), tok("tok2"), BASE)
        .unwrap();
    assert_eq!(reg.subscriber_count(), 2);
    assert_eq!(reg.find_by_email("ada@example.org"), Some(1));
    confirm(&mut reg, Some(tok("tok2"))).unwrap();
    assert_eq!(reg.subscriber(0).status, SubscriptionStatus::PendingConfirmation);
    assert_eq!(reg.subscriber(1).status, SubscriptionStatus::Confirmed);
}

#[test]
fn links_and_bodies_are_spelled_exactly() {
    assert_eq!(confirmation_link_for("http://a", "t"), "http://a/subscriptions/confirm?token=t");
    assert_eq!(
        confirmation_html_for("L"),
        "Welcome to our newsletter!<br />Click <a href=\"L\">here</a> to confirm your subscription."
    );
}

#[test]
fn a_malformed_token_is_refused_before_anything_is_written() {
    for bad in ["", "short", "tok1-00000000000000000000", "tok10000000000000000000000"] {
        let mut reg = Registry::new();
        let r = subscribe(&mut reg, valid_form(), bad.to_string(), BASE);
        let e = r.err().unwrap();
        assert!(matches!(e, SubscribeError::MalformedToken));
        assert_eq!(e.status_code(), 500);
        assert_eq!(reg.subscriber_count(), 0);
        assert_eq!(reg.token_count(), 0);
    }
}

#[test]
fn a_generated_token_is_accepted() {
    let mut reg = Registry::new();
    let t = zero2prod::token::generate_token();
    assert!(zero2prod::token::token_check(&t));
    assert!(subscribe(&mut reg, valid_form(), t, BASE).unwrap().is_some());
}
