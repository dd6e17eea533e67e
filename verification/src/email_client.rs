//! The dispatch client: what it is made of, what it asks of the provider
//! for one message, and how it reads the provider's answer.

pub mod client;
pub mod envelope;
pub mod outcome;
pub mod secret;
pub mod url;

pub use client::EmailClient;
pub use client::OutboundRequest;
pub use envelope::SendEmailRequest;
pub use envelope::SendGridContentType;
pub use outcome::classify;
pub use outcome::HttpOutcome;
pub use outcome::SendError;
pub use secret::SecretText;
