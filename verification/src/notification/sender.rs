//! What a notification holds, and the notifier that sends nothing.

use crate::config::types::ServiceConfig;
use crate::error::NotificationError;
use crate::health::result::HealthResult;
use vstd::prelude::*;

verus! {

/// The kind of a notification.
#[derive(Clone, Copy, Debug, PartialEq, Eq, Structural)]
pub enum MessageType {
    /// A service is failing.
    Alert,
    /// A service is back.
    Recovery,
    /// Something worth knowing.
    Info,
}

/// One notification.
#[derive(Debug)]
pub struct NotificationMessage {
    /// The title.
    pub title: String,
    /// The text.
    pub content: String,
    /// The service it is about.
    pub service_name: String,
    /// The address of that service.
    pub service_url: String,
    /// The kind.
    pub message_type: MessageType,
}

/// A notifier that accepts everything and sends nothing.
#[derive(Clone, Copy, Debug, PartialEq, Eq, Structural)]
pub struct NoOpSender;

impl NoOpSender {
    /// Accepts the alert or recovery notice and sends nothing.
    pub fn send_health_alert(&self, service: &ServiceConfig, result: &HealthResult) -> (r: Result<
        (),
        NotificationError,
    >)
        ensures
            r is Ok,
    {
        Ok(())
    }

    /// Accepts the message and sends nothing.
    pub fn send_message(&self, message: &NotificationMessage) -> (r: Result<(), NotificationError>)
        ensures
            r is Ok,
    {
        Ok(())
    }

    /// Finds the connection in order, as there is none.
    pub fn test_connection(&self) -> (r: Result<(), NotificationError>)
        ensures
            r is Ok,
    {
        Ok(())
    }
}

} // verus!
