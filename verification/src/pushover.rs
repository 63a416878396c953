//! Data model and failures of the push-notification sink.
//!
//! The sink's HTTP client is an excluded collaborator; the core addresses
//! it with these plain values and classifies its failures.

use vstd::prelude::*;
use crate::error::IsTransient;

verus! {

/// The key identifying a recipient at the push-notification service.
#[derive(Debug, Clone, PartialEq, Eq, Hash)]
pub struct UserKey(pub String);

/// Failures of configuring the sink or of delivering to it.  A failed
/// delivery carries the transient tag its underlying transport error was
/// classified with; the configuration failures are never transient.
#[derive(Debug, PartialEq, Eq)]
pub enum Error {
    UnknownApiToken,
    UnableToConfigureNotifyUrl,
    UnableToSendNotification { transient: bool },
}

impl IsTransient for Error {
    open spec fn transient(&self) -> bool {
        match self {
            Error::UnableToSendNotification { transient } => *transient,
            _ => false,
        }
    }

    fn is_transient(&self) -> (b: bool)
        ensures
            b == self.transient(),
    {
        match self {
            Error::UnableToSendNotification { transient } => *transient,
            _ => false,
        }
    }
}

} // verus!
