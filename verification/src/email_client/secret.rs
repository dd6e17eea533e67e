//! Texts that must not leak.

use secrecy::ExposeSecret;
use secrecy::Secret;
use vstd::prelude::*;

verus! {

/// A text that must not leak, kept in a `secrecy::Secret<String>`: it is
/// wiped from memory when it is dropped, and printing it for debugging shows
/// a placeholder in place of the text.
///
/// The verifier cannot take the type `Secret` itself, whose parameter is
/// bound by a trait that it does not know, so it is kept from the verifier's
/// sight in this struct.
#[verifier::external_body]
#[derive(Debug)]
pub struct SecretText {
    inner: Secret<String>,
}

/// The text that a secret keeps.
pub uninterp spec fn secret_text(secret: SecretText) -> Seq<char>;

impl View for SecretText {
    type V = Seq<char>;

    open spec fn view(&self) -> Seq<char> {
        secret_text(*self)
    }
}

/// `secrecy::Secret::new`, taken on trust: the new secret keeps `text`.
#[verifier::external_body]
fn seal(text: String) -> (secret: SecretText)
    ensures
        secret_text(secret) == text@,
{
    SecretText { inner: Secret::new(text) }
}

/// `secrecy::ExposeSecret::expose_secret`, taken on trust: it lends the
/// text that the secret keeps.
#[verifier::external_body]
fn expose(secret: &SecretText) -> (text: &str)
    ensures
        text@ == secret_text(*secret),
{
    secret.inner.expose_secret().as_str()
}

impl SecretText {
    /// Takes a text into keeping.
    pub fn new(text: String) -> (secret: SecretText)
        ensures
            secret@ == text@,
    {
        seal(text)
    }

    /// The text in the clear. This is for the one place where the text has
    /// to leave the program, such as a header of a request.
    pub fn expose_secret(&self) -> (text: &str)
        ensures
            text@ == self@,
    {
        expose(self)
    }
}

} // verus!
