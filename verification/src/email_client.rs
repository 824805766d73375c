//! The client of the e-mail provider: what it sends and how it reads the
//! answer.
//!
//! The client itself opens no connection. It says what one request holds,
//! and, given what the transport reports back, whether the subscriber was
//! notified.

pub mod email_body;
pub mod json;
pub mod reading;

use crate::domain::subscriber_email::SubscriberEmail;
use crate::domain::subscriber_name::SubscriberName;
use crate::email_client::email_body::payload_json;
use crate::email_client::email_body::single_recipient_payload;
use crate::email_client::email_body::EmailBody;
use crate::email_client::email_body::Identity;
use crate::email_client::email_body::NameAndEmail;
use crate::email_client::email_body::ParsedEmail;
use crate::email_client::email_body::ParsedName;
use crate::secret::Secret;
use reqwest::Url;
use vstd::prelude::*;

verus! {

/// The path of the provider's endpoint for sending, read against the base
/// address.
pub const EMAIL_PATH: &'static str = "/email";

/// The media type of the payload.
pub const CONTENT_TYPE: &'static str = "application/json";

/// The method of the request.
pub const METHOD: &'static str = "POST";

/// How many seconds the transport may wait for the provider's answer.
pub const REQUEST_TIMEOUT_SECS: u64 = 10;

/// The address that `reference` names when it is read against the absolute
/// address `base`, in its normal written form. `None` where `base` is not an
/// absolute address or `reference` cannot be read against it.
pub uninterp spec fn resolved_url(base: Seq<char>, reference: Seq<char>) -> Option<Seq<char>>;

/// Trusted: `Url::parse(base)` and then `Url::join(reference)` on what it
/// gave. Both depend on their arguments alone. The result is the text of the
/// joined address, and `None` where either call returned its error.
#[verifier::external_body]
fn resolve(base: &str, reference: &str) -> (address: Option<String>)
    ensures
        match address {
            Some(text) => resolved_url(base@, reference@) == Some(text@),
            None => resolved_url(base@, reference@) is None,
        },
{
    match Url::parse(base) {
        Ok(parsed) => match parsed.join(reference) {
            Ok(joined) => Some(String::from(joined)),
            Err(_) => None,
        },
        Err(_) => None,
    }
}

/// Why a client could not be made.
#[derive(Clone, Copy, Debug, PartialEq, Eq, Structural)]
pub enum ClientError {
    /// The base address is not an absolute address that the endpoint's path
    /// can be read against.
    InvalidBaseUrl,
}

/// What the transport reports of one request.
#[derive(Clone, Copy, Debug, PartialEq, Eq, Structural)]
pub enum Delivery {
    /// No answer came: the provider could not be reached, the connection
    /// broke, or the time allowed ran out.
    NoResponse,
    /// The provider answered with this status.
    Response(u16),
}

/// Why the subscriber was not notified.
#[derive(Clone, Copy, Debug, PartialEq, Eq, Structural)]
pub enum DispatchError {
    /// No answer came from the provider.
    Transport,
    /// The provider answered with this status, which is not a success.
    RemoteRejected(u16),
}

/// Whether `status` reports success: the statuses from 200 to 299.
pub open spec fn is_success(status: u16) -> bool {
    200 <= status <= 299
}

/// How a dispatch ended, given what the transport reported.
pub open spec fn outcome_of(delivery: Delivery) -> Result<(), DispatchError> {
    match delivery {
        Delivery::NoResponse => Err(DispatchError::Transport),
        Delivery::Response(status) => if is_success(status) {
            Ok(())
        } else {
            Err(DispatchError::RemoteRejected(status))
        },
    }
}

/// How a dispatch ended, given what the transport reported: success on an
/// answer with a status from 200 to 299, and nothing else.
pub fn outcome(delivery: Delivery) -> (result: Result<(), DispatchError>)
    ensures
        result == outcome_of(delivery),
        result is Ok <==> (delivery matches Delivery::Response(status) && is_success(status)),
        delivery is NoResponse ==> result == Err::<(), DispatchError>(DispatchError::Transport),
{
    match delivery {
        Delivery::NoResponse => Err(DispatchError::Transport),
        Delivery::Response(status) => {
            if 200 <= status && status <= 299 {
                Ok(())
            } else {
                Err(DispatchError::RemoteRejected(status))
            }
        },
    }
}

/// What a client is.
pub struct ClientState {
    pub base_url: Seq<char>,
    pub endpoint: Seq<char>,
    pub sender: Identity,
    pub authorization: Seq<char>,
}

/// A client that is ready to send: its base address has been checked, and
/// nothing in it changes afterwards.
pub struct EmailClient {
    base_url: String,
    endpoint: String,
    sender_email: ParsedEmail,
    sender_name: ParsedName,
    authorization_token: Secret,
}

impl View for EmailClient {
    type V = ClientState;

    closed spec fn view(&self) -> ClientState {
        ClientState {
            base_url: self.base_url@,
            endpoint: self.endpoint@,
            sender: Identity { address: self.sender_email@, name: self.sender_name@ },
            authorization: self.authorization_token@,
        }
    }
}

/// One request to the provider, ready for the transport.
pub struct EmailRequest<'a> {
    /// The method, [`METHOD`].
    pub method: &'static str,
    /// The address of the endpoint.
    pub url: String,
    /// The credential for the `Authorization` header, to be exposed only
    /// where the header is written.
    pub authorization: &'a Secret,
    /// The value of the `Content-Type` header, [`CONTENT_TYPE`].
    pub content_type: &'static str,
    /// The payload.
    pub body: String,
    /// How many seconds to wait for the answer, [`REQUEST_TIMEOUT_SECS`].
    pub timeout_secs: u64,
}

impl EmailClient {
    /// Makes a client for the provider at `base_url`. Fails, and makes no
    /// client, unless `base_url` is an absolute address against which the
    /// endpoint's path can be read.
    pub fn new(
        base_url: String,
        sender_email: ParsedEmail,
        sender_name: ParsedName,
        authorization_token: Secret,
    ) -> (result: Result<EmailClient, ClientError>)
        ensures
            match result {
                Ok(client) => {
                    &&& resolved_url(base_url@, EMAIL_PATH@) == Some(client@.endpoint)
                    &&& client@.base_url == base_url@
                    &&& client@.sender.address == sender_email@
                    &&& client@.sender.name == sender_name@
                    &&& client@.authorization == authorization_token@
                },
                Err(error) => {
                    &&& resolved_url(base_url@, EMAIL_PATH@) is None
                    &&& error == ClientError::InvalidBaseUrl
                },
            },
    {
        let endpoint = resolve(base_url.as_str(), EMAIL_PATH);
        EmailClient::with_endpoint(
            base_url,
            endpoint,
            sender_email,
            sender_name,
            authorization_token,
        )
    }

    /// Makes a client from a base address and the outcome of reading the
    /// endpoint's path against it: a client with that endpoint if there is
    /// one, no client if there is none.
    pub fn with_endpoint(
        base_url: String,
        endpoint: Option<String>,
        sender_email: ParsedEmail,
        sender_name: ParsedName,
        authorization_token: Secret,
    ) -> (result: Result<EmailClient, ClientError>)
        ensures
            match result {
                Ok(client) => {
                    &&& endpoint matches Some(text)
                    &&& client@.endpoint == text@
                    &&& client@.base_url == base_url@
                    &&& client@.sender.address == sender_email@
                    &&& client@.sender.name == sender_name@
                    &&& client@.authorization == authorization_token@
                },
                Err(error) => endpoint is None && error == ClientError::InvalidBaseUrl,
            },
    {
        match endpoint {
            Some(endpoint) => Ok(
                EmailClient { base_url, endpoint, sender_email, sender_name, authorization_token },
            ),
            None => Err(ClientError::InvalidBaseUrl),
        }
    }

    /// The request that notifies the recipient: the payload from the
    /// client's own sender to that one recipient, for the client's endpoint,
    /// with the client's credential.
    pub fn request<'a>(
        &'a self,
        recipient_email: &SubscriberEmail,
        recipient_name: &SubscriberName,
        subject: &str,
        html_content: &str,
    ) -> (request: EmailRequest<'a>)
        ensures
            request.method@ == METHOD@,
            request.url@ == self@.endpoint,
            request.authorization@ == self@.authorization,
            request.content_type@ == CONTENT_TYPE@,
            request.timeout_secs == REQUEST_TIMEOUT_SECS,
            request.body@ == payload_json(
                single_recipient_payload(
                    self@.sender,
                    (Identity { address: recipient_email@, name: recipient_name@ }),
                    subject@,
                    html_content@,
                ),
            ),
    {
        let from = NameAndEmail::from_validated(&self.sender_email, &self.sender_name);
        let to = NameAndEmail::from_validated(recipient_email, recipient_name);
        let body = EmailBody::new(from, to, subject, html_content).to_json();
        EmailRequest {
            method: METHOD,
            url: self.endpoint.clone(),
            authorization: &self.authorization_token,
            content_type: CONTENT_TYPE,
            body,
            timeout_secs: REQUEST_TIMEOUT_SECS,
        }
    }

    /// The base address that the client was made with.
    pub fn base_url(&self) -> (text: &str)
        ensures
            text@ == self@.base_url,
    {
        self.base_url.as_str()
    }

    /// The address that requests go to.
    pub fn endpoint(&self) -> (text: &str)
        ensures
            text@ == self@.endpoint,
    {
        self.endpoint.as_str()
    }
}

} // verus!
