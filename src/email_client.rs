use secrecy::{ExposeSecret, Secret};
use vstd::prelude::*;
use vstd::string::*;

use crate::domain::SubscriberEmail;
use crate::json::{json_quoted, push_json_string};

verus! {

/// secrecy's `Secret<String>`, kept opaque: Verus refuses a declaration of
/// `Secret`, whose parameter is bound by the outside trait `Zeroize`.
#[verifier::external_body]
struct SecretText {
    inner: Secret<String>,
}

impl SecretText {
    /// Relies on secrecy's `Secret::new`: takes ownership of the text.
    #[verifier::external_body]
    fn new(text: String) -> SecretText {
        SecretText { inner: Secret::new(text) }
    }
}

/// The provider's API key. It is held in a `Secret`, which keeps it out of
/// `Debug` output and wipes it on drop; `text` is the key as the contracts
/// see it, set with the secret and never changed apart from it.
pub struct ApiKey {
    secret: SecretText,
    text: Ghost<Seq<char>>,
}

impl View for ApiKey {
    type V = Seq<char>;

    closed spec fn view(&self) -> Seq<char> {
        self.text@
    }
}

impl ApiKey {
    pub fn new(key: String) -> (r: ApiKey)
        ensures
            r@ == key@,
    {
        let ghost text = key@;
        ApiKey { secret: SecretText::new(key), text: Ghost(text) }
    }

    /// Relies on secrecy's `ExposeSecret::expose_secret`: a reference to the
    /// text that `Secret::new` was given, read only to write the
    /// authorization header.
    #[verifier::external_body]
    fn expose(&self) -> (r: &String)
        ensures
            r@ == self@,
    {
        self.secret.inner.expose_secret()
    }
}

/// The JSON payload of one message from `sender` to `recipient`: sender and
/// recipient without display names, the subject, and one `text/html` block.
pub open spec fn request_body(
    sender: Seq<char>,
    recipient: Seq<char>,
    subject: Seq<char>,
    html: Seq<char>,
) -> Seq<char> {
    "{\"from\":{\"email\":"@ + json_quoted(sender) + ",\"name\":\"\"},\"personalizations\":[{\"to\":[{\"email\":"@
        + json_quoted(recipient) + ",\"name\":\"\"}]}],\"subject\":"@ + json_quoted(subject)
        + ",\"content\":[{\"type\":\"text/html\",\"value\":"@ + json_quoted(html) + "}]}"@
}

/// The value of the `Authorization` header for `key`.
pub open spec fn bearer(key: Seq<char>) -> Seq<char> {
    "bearer "@ + key
}

/// Why a message was not delivered.
#[derive(Debug, Clone, Copy, PartialEq, Eq, Structural)]
pub enum DeliveryError {
    /// The connection failed before a response came.
    Network,
    /// No response within the client's timeout.
    Timeout,
    /// The provider answered with this status, outside `200..300`.
    ProviderRejected(u16),
}

/// What became of one request to the provider.
#[derive(Debug, Clone, Copy, PartialEq, Eq, Structural)]
pub enum Transport {
    Responded(u16),
    TimedOut,
    ConnectionFailed,
}

pub open spec fn is_success_status(status: u16) -> bool {
    200 <= status < 300
}

/// Maps the fate of a request to the result of a send.
pub fn delivery_outcome(t: Transport) -> (r: Result<(), DeliveryError>)
    ensures
        r == match t {
            Transport::Responded(s) => if is_success_status(s) {
                Ok(())
            } else {
                Err(DeliveryError::ProviderRejected(s))
            },
            Transport::TimedOut => Err(DeliveryError::Timeout),
            Transport::ConnectionFailed => Err(DeliveryError::Network),
        },
{
    match t {
        Transport::Responded(s) => if 200 <= s && s < 300 {
            Ok(())
        } else {
            Err(DeliveryError::ProviderRejected(s))
        },
        Transport::TimedOut => Err(DeliveryError::Timeout),
        Transport::ConnectionFailed => Err(DeliveryError::Network),
    }
}

/// One POST to the provider, ready to be sent.
pub struct EmailRequest {
    pub url: String,
    pub authorization: String,
    pub content_type: String,
    pub body: String,
}

/// Sends confirmation emails through a transactional email provider.
pub struct EmailClient {
    base_url: String,
    send_path: String,
    sender: SubscriberEmail,
    api_key: ApiKey,
    timeout: std::time::Duration,
}

impl EmailClient {
    pub closed spec fn base_url(&self) -> Seq<char> {
        self.base_url@
    }

    pub closed spec fn send_path(&self) -> Seq<char> {
        self.send_path@
    }

    pub closed spec fn sender(&self) -> Seq<char> {
        self.sender@
    }

    pub closed spec fn api_key(&self) -> Seq<char> {
        self.api_key@
    }

    pub closed spec fn timeout_spec(&self) -> std::time::Duration {
        self.timeout
    }

    pub fn new(
        base_url: String,
        send_path: String,
        sender: SubscriberEmail,
        api_key: ApiKey,
        timeout: std::time::Duration,
    ) -> (c: Self)
        ensures
            c.base_url() == base_url@,
            c.send_path() == send_path@,
            c.sender() == sender@,
            c.api_key() == api_key@,
            c.timeout_spec() == timeout,
    {
        EmailClient { base_url, send_path, sender, api_key, timeout }
    }

    /// The timeout that applies to a whole request.
    pub fn timeout(&self) -> (t: std::time::Duration)
        ensures
            t == self.timeout_spec(),
    {
        self.timeout
    }

    /// The request that delivers `content` (HTML) under `subject` to
    /// `recipient`: a POST to the base URL followed by the send path, with
    /// the bearer key and the JSON payload.
    pub fn build_request(&self, recipient: &SubscriberEmail, subject: &str, content: &str) -> (r:
        EmailRequest)
        ensures
            r.url@ == self.base_url() + self.send_path(),
            r.body@ == request_body(self.sender(), recipient@, subject@, content@),
            r.authorization@ == bearer(self.api_key()),
            r.content_type@ == "application/json"@,
    {
        let url = self.base_url.clone().concat(self.send_path.as_str());
        let key = self.api_key.expose();
        let authorization = String::from_str("bearer ").concat(key.as_str());
        let mut body = String::from_str("{\"from\":{\"email\":");
        push_json_string(&mut body, self.sender.as_ref());
        body.append(",\"name\":\"\"},\"personalizations\":[{\"to\":[{\"email\":");
        push_json_string(&mut body, recipient.as_ref());
        body.append(",\"name\":\"\"}]}],\"subject\":");
        push_json_string(&mut body, subject);
        body.append(",\"content\":[{\"type\":\"text/html\",\"value\":");
        push_json_string(&mut body, content);
        body.append("}]}");
        let content_type = String::from_str("application/json");
        EmailRequest { url, authorization, content_type, body }
    }
}

} // verus!
