//! The message in the shape that the provider takes it.
//!
//! One message names one recipient and one sender, carries a subject, and
//! brings its text twice: first as plain text, then as HTML.

use crate::domain::address_grammar::is_valid_email;
use crate::domain::subscriber_email::SubscriberEmail;
use vstd::prelude::*;

verus! {

/// The two formats in which one message carries its text.
#[derive(Debug, Clone, Copy, PartialEq, Eq, Structural)]
pub enum SendGridContentType {
    /// Plain text.
    Plain,
    /// HTML.
    Html,
}

impl SendGridContentType {
    /// The media type by which the provider tells the formats apart.
    pub open spec fn media_type(self) -> Seq<char> {
        match self {
            SendGridContentType::Plain => "text/plain"@,
            SendGridContentType::Html => "text/html"@,
        }
    }

    /// The media type as text: `text/plain` or `text/html`.
    pub fn as_str(&self) -> (name: &'static str)
        ensures
            name@ == self.media_type(),
    {
        match self {
            Self::Plain => "text/plain",
            Self::Html => "text/html",
        }
    }
}

/// An address with the name that goes with it.
#[derive(Debug)]
pub struct SendEmailObject<'a> {
    pub email: &'a str,
    pub name: Option<&'a str>,
}

/// The block that names one recipient.
#[derive(Debug)]
pub struct SendEmailPersonalizations<'a> {
    pub to: SendEmailObject<'a>,
}

/// The text of the message in one format.
#[derive(Debug)]
pub struct SendEmailContent<'a> {
    pub content_type: SendGridContentType,
    pub value: &'a str,
}

/// The whole message.
#[derive(Debug)]
pub struct SendEmailRequest<'a> {
    pub personalizations: Vec<SendEmailPersonalizations<'a>>,
    pub from: SendEmailObject<'a>,
    pub subject: &'a str,
    pub content: Vec<SendEmailContent<'a>>,
}

/// What a `SendEmailObject` says.
pub struct Mailbox {
    pub email: Seq<char>,
    pub name: Option<Seq<char>>,
}

/// What a `SendEmailContent` says.
pub struct Body {
    pub content_type: SendGridContentType,
    pub value: Seq<char>,
}

/// What a `SendEmailRequest` says.
pub struct Envelope {
    pub to: Seq<Mailbox>,
    pub from: Mailbox,
    pub subject: Seq<char>,
    pub content: Seq<Body>,
}

impl<'a> View for SendEmailObject<'a> {
    type V = Mailbox;

    open spec fn view(&self) -> Mailbox {
        Mailbox {
            email: self.email@,
            name: match self.name {
                Some(name) => Some(name@),
                None => None,
            },
        }
    }
}

impl<'a> View for SendEmailContent<'a> {
    type V = Body;

    open spec fn view(&self) -> Body {
        Body { content_type: self.content_type, value: self.value@ }
    }
}

impl<'a> View for SendEmailRequest<'a> {
    type V = Envelope;

    open spec fn view(&self) -> Envelope {
        Envelope {
            to: Seq::new(self.personalizations@.len(), |i: int| self.personalizations@[i].to@),
            from: self.from@,
            subject: self.subject@,
            content: Seq::new(self.content@.len(), |i: int| self.content@[i]@),
        }
    }
}

/// An address that goes without a name.
pub open spec fn unnamed(email: Seq<char>) -> Mailbox {
    Mailbox { email, name: None }
}

/// The message from `sender` to `recipient`: one recipient, no names, and
/// the plain text before the HTML.
pub open spec fn envelope(
    recipient: Seq<char>,
    sender: Seq<char>,
    subject: Seq<char>,
    html_content: Seq<char>,
    text_content: Seq<char>,
) -> Envelope {
    Envelope {
        to: seq![unnamed(recipient)],
        from: unnamed(sender),
        subject,
        content: seq![
            Body { content_type: SendGridContentType::Plain, value: text_content },
            Body { content_type: SendGridContentType::Html, value: html_content },
        ],
    }
}

/// Every message names exactly one recipient and gives no names; it holds
/// the two addresses and the subject as they were given; and it carries
/// exactly two bodies: the plain text, tagged `text/plain`, and after it the
/// HTML, tagged `text/html`.
pub proof fn lemma_envelope_shape(
    recipient: Seq<char>,
    sender: Seq<char>,
    subject: Seq<char>,
    html_content: Seq<char>,
    text_content: Seq<char>,
)
    ensures
        ({
            let message = envelope(recipient, sender, subject, html_content, text_content);
            &&& message.to.len() == 1
            &&& message.to[0].email == recipient
            &&& message.to[0].name is None
            &&& message.from.email == sender
            &&& message.from.name is None
            &&& message.subject == subject
            &&& message.content.len() == 2
            &&& message.content[0].content_type.media_type() == "text/plain"@
            &&& message.content[0].value == text_content
            &&& message.content[1].content_type.media_type() == "text/html"@
            &&& message.content[1].value == html_content
        }),
{
}

impl<'a> SendEmailRequest<'a> {
    /// Builds the message from `sender` to `recipient`.
    pub fn new(
        recipient: &'a SubscriberEmail,
        sender: &'a SubscriberEmail,
        subject: &'a str,
        html_content: &'a str,
        text_content: &'a str,
    ) -> (request: Self)
        ensures
            request@ == envelope(recipient@, sender@, subject@, html_content@, text_content@),
            is_valid_email(request@.to[0].email),
            is_valid_email(request@.from.email),
    {
        let request = SendEmailRequest {
            personalizations: vec![
                SendEmailPersonalizations {
                    to: SendEmailObject { email: recipient.as_ref(), name: None },
                },
            ],
            from: SendEmailObject { email: sender.as_ref(), name: None },
            subject,
            content: vec![
                SendEmailContent { content_type: SendGridContentType::Plain, value: text_content },
                SendEmailContent { content_type: SendGridContentType::Html, value: html_content },
            ],
        };
        proof {
            let expected = envelope(recipient@, sender@, subject@, html_content@, text_content@);
            assert(request@.to =~= expected.to);
            assert(request@.content =~= expected.content);
        }
        request
    }
}

} // verus!
