//! Mail through a relay server: a transport that has no relay server to hand
//! mail to yet, and so sends nothing.
use vstd::prelude::*;

use crate::transport::smtp_direct::SmtpError;

verus! {

/// A transport that hands mail to a relay server.
pub struct SmtpRelay {}

impl SmtpRelay {
    /// A relay transport.
    pub fn new() -> (r: SmtpRelay) {
        SmtpRelay {}
    }

    /// Sends the notification with `title` and `body` through the relay
    /// server; there is none to send to, so this fails.
    pub fn send(&self, title: String, body: String) -> (r: Result<(), SmtpError>)
        ensures
            r matches Err(SmtpError::NoRelayServer),
    {
        Err(SmtpError::NoRelayServer)
    }
}

} // verus!
