//! Values that are checked once, where they enter the system.

pub mod address_grammar;
pub mod subscriber_email;

pub use subscriber_email::SubscriberEmail;
pub use subscriber_email::ValidationError;
