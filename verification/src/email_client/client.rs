//! The client and the request it makes for one message.

use crate::domain::address_grammar::is_valid_email;
use crate::domain::subscriber_email::SubscriberEmail;
use crate::email_client::envelope::envelope;
use crate::email_client::envelope::Envelope;
use crate::email_client::envelope::SendEmailRequest;
use crate::email_client::secret::SecretText;
use crate::email_client::url::join;
use crate::email_client::url::joined_url;
use reqwest::Url;
use std::time::Duration;
use vstd::prelude::*;
use vstd::string::StringExecFns;

verus! {

/// The path of the provider's endpoint for sending mail.
pub open spec fn send_path() -> Seq<char> {
    "/mail/send"@
}

/// The value of the `Authorization` header that presents `token`.
pub open spec fn bearer(token: Seq<char>) -> Seq<char> {
    "Bearer: "@ + token
}

/// What a client is made of.
pub struct Configuration {
    pub base_url: Url,
    pub sender: Seq<char>,
    pub token: Seq<char>,
    pub timeout: Duration,
}

/// A client of the provider. It is made once and never changes; sending a
/// message through it changes nothing in it.
#[derive(Debug)]
pub struct EmailClient {
    base_url: Url,
    sender: SubscriberEmail,
    authorization_token: SecretText,
    timeout: Duration,
}

/// One HTTP request to the provider.
#[derive(Debug)]
pub struct OutboundRequest<'a> {
    /// The HTTP method.
    pub method: &'static str,
    /// Where the request goes.
    pub url: Url,
    /// The value of the `Authorization` header.
    pub authorization: SecretText,
    /// The value of the `Content-Type` header.
    pub content_type: &'static str,
    /// The message, to be written as JSON into the body.
    pub body: SendEmailRequest<'a>,
}

/// What an `OutboundRequest` says.
pub struct Request {
    pub method: Seq<char>,
    pub url: Url,
    pub authorization: Seq<char>,
    pub content_type: Seq<char>,
    pub body: Envelope,
}

impl View for EmailClient {
    type V = Configuration;

    closed spec fn view(&self) -> Configuration {
        Configuration {
            base_url: self.base_url,
            sender: self.sender@,
            token: self.authorization_token@,
            timeout: self.timeout,
        }
    }
}

impl<'a> View for OutboundRequest<'a> {
    type V = Request;

    open spec fn view(&self) -> Request {
        Request {
            method: self.method@,
            url: self.url,
            authorization: self.authorization@,
            content_type: self.content_type@,
            body: self.body@,
        }
    }
}

impl Configuration {
    /// The request that sends one message to `url`: a `POST` that presents
    /// the token and carries the message from the client's sender as JSON.
    pub open spec fn request_to(
        self,
        url: Url,
        recipient: Seq<char>,
        subject: Seq<char>,
        html_content: Seq<char>,
        text_content: Seq<char>,
    ) -> Request {
        Request {
            method: "POST"@,
            url,
            authorization: bearer(self.token),
            content_type: "application/json"@,
            body: envelope(recipient, self.sender, subject, html_content, text_content),
        }
    }

    /// The request that sends one message, if the endpoint can be resolved
    /// against the base URL.
    pub open spec fn request(
        self,
        recipient: Seq<char>,
        subject: Seq<char>,
        html_content: Seq<char>,
        text_content: Seq<char>,
    ) -> Option<Request> {
        match joined_url(self.base_url, send_path()) {
            Some(url) => Some(
                self.request_to(url, recipient, subject, html_content, text_content),
            ),
            None => None,
        }
    }
}

/// The token reaches a request through its `Authorization` header and in
/// no other way: two clients with the same base URL and the same sender ask
/// for requests that differ, if at all, in that header alone.
pub proof fn lemma_token_shows_in_authorization_only(
    one: Configuration,
    other: Configuration,
    recipient: Seq<char>,
    subject: Seq<char>,
    html_content: Seq<char>,
    text_content: Seq<char>,
)
    requires
        one.base_url == other.base_url,
        one.sender == other.sender,
    ensures
        match (
            one.request(recipient, subject, html_content, text_content),
            other.request(recipient, subject, html_content, text_content),
        ) {
            (Some(a), Some(b)) => a == (Request { authorization: a.authorization, ..b }),
            (None, None) => true,
            _ => false,
        },
{
}

impl EmailClient {
    /// A client that posts to the provider at `base_url`, sends from
    /// `sender`, presents `authorization_token`, and gives each exchange
    /// `timeout` to complete.
    pub fn new(
        base_url: Url,
        sender: SubscriberEmail,
        authorization_token: SecretText,
        timeout: Duration,
    ) -> (client: Self)
        ensures
            client@ == (Configuration {
                base_url,
                sender: sender@,
                token: authorization_token@,
                timeout,
            }),
    {
        Self { base_url, sender, authorization_token, timeout }
    }

    /// The URL to which messages are posted: the send path resolved against
    /// the base URL. `None` if the base URL is one against which nothing can
    /// be resolved.
    pub fn endpoint(&self) -> (url: Option<Url>)
        ensures
            url == joined_url(self@.base_url, send_path()),
    {
        join(&self.base_url, "/mail/send")
    }

    /// The `Authorization` header that presents the client's token.
    pub fn authorization(&self) -> (header: SecretText)
        ensures
            header@ == bearer(self@.token),
    {
        let token = self.authorization_token.expose_secret();
        SecretText::new(String::from_str("Bearer: ").concat(token))
    }

    /// The request that sends one message to `url`.
    pub fn request_to<'a>(
        &'a self,
        url: Url,
        recipient: &'a SubscriberEmail,
        subject: &'a str,
        html_content: &'a str,
        text_content: &'a str,
    ) -> (request: OutboundRequest<'a>)
        ensures
            request@ == self@.request_to(
                url,
                recipient@,
                subject@,
                html_content@,
                text_content@,
            ),
    {
        OutboundRequest {
            method: "POST",
            url,
            authorization: self.authorization(),
            content_type: "application/json",
            body: SendEmailRequest::new(
                recipient,
                &self.sender,
                subject,
                html_content,
                text_content,
            ),
        }
    }

    /// The request that sends one message: a `POST` to the endpoint, with
    /// the token in the `Authorization` header and the message as the body.
    /// `None` if the endpoint cannot be resolved against the base URL.
    pub fn request<'a>(
        &'a self,
        recipient: &'a SubscriberEmail,
        subject: &'a str,
        html_content: &'a str,
        text_content: &'a str,
    ) -> (request: Option<OutboundRequest<'a>>)
        ensures
            self@.request(recipient@, subject@, html_content@, text_content@) == (match request {
                Some(request) => Some(request@),
                None => None,
            }),
    {
        match self.endpoint() {
            Some(url) => Some(self.request_to(url, recipient, subject, html_content, text_content)),
            None => None,
        }
    }

    /// The address from which the client sends.
    pub fn sender(&self) -> (sender: &SubscriberEmail)
        ensures
            sender@ == self@.sender,
            is_valid_email(self@.sender),
    {
        proof {
            use_type_invariant(&self.sender);
        }
        &self.sender
    }

    /// The URL against which the endpoint is resolved.
    pub fn base_url(&self) -> (url: &Url)
        ensures
            *url == self@.base_url,
    {
        &self.base_url
    }

    /// How long one exchange with the provider may take, from the first
    /// attempt to connect to the end of the answer.
    pub fn timeout(&self) -> (timeout: Duration)
        ensures
            timeout == self@.timeout,
    {
        self.timeout
    }
}

} // verus!
