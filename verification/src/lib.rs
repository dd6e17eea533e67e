//! A client for sending transactional e-mail through an HTTP provider.
//!
//! The crate decides everything about one delivery that can be decided
//! without touching the network: whether a text is an e-mail address, what
//! request the provider is sent, and what the provider's answer means. The
//! caller performs the HTTP exchange itself and reports how it ended.

pub mod domain;
pub mod email_client;
