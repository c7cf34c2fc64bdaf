//! The outbound notification collaborator: how a one-time code reaches the
//! user. Nothing is promised of a send; a failure is surfaced, never hidden.
use vstd::prelude::*;

use crate::email::Email;

verus! {

/// Sends a message to a user. Implementations may reach any transport; the
/// flows only learn whether the send was accepted.
pub trait EmailClient {
    fn send_email(&self, recipient: &Email, subject: &str, content: &str) -> Result<(), String>;
}

/// An email client that accepts every message and delivers none: the
/// reference collaborator for tests and local runs.
pub struct MockEmailClient;

impl EmailClient for MockEmailClient {
    fn send_email(&self, recipient: &Email, subject: &str, content: &str) -> Result<(), String> {
        Ok(())
    }
}

} // verus!
