//! Error types.
//!
//! [`QStashError`] is the coarse, caller-facing error of every client
//! method. [`PublishFailure`] is the precise failure of the publish
//! pipeline: it says which stage failed and, for an encoding failure,
//! which delivery option was at fault. A per-target error reported by the
//! service inside a decoded response is not an error of this taxonomy: it
//! is carried as data in an outcome record.

use vstd::prelude::*;

verus! {

/// The error type of the client.
#[derive(Debug, Clone, PartialEq, Eq, Structural)]
pub enum QStashError {
    /// The token cannot be carried in an authorization header.
    TokenError,
    /// The HTTP client could not be initialized.
    ReqwestError,
    /// The base URL could not be parsed.
    InvalidUrl,
    /// Publishing failed: bad destination, bad option, transport failure,
    /// or a response body of an unexpected shape.
    PublishError,
    /// The events listing failed.
    EventError,
    /// The dead-letter-queue listing failed.
    DeadLetterQueueError,
    /// The message lookup failed.
    GetMessageError,
    /// The message cancellation failed.
    DeleteMessageError,
}

impl QStashError {
    /// A fixed, human-readable description of the error.
    pub fn message(&self) -> (r: &'static str)
        ensures
            r@ == self.spec_message(),
    {
        match self {
            QStashError::TokenError => "Could not parse token",
            QStashError::ReqwestError => "Reqwest failed to initialize",
            QStashError::InvalidUrl => "Invalid Url",
            QStashError::PublishError => "Error publishing message",
            QStashError::EventError => "Error getting events",
            QStashError::DeadLetterQueueError => "Error getting DLQ List",
            QStashError::GetMessageError => "Error getting message",
            QStashError::DeleteMessageError => "Error deleting message",
        }
    }

    /// What [`QStashError::message`] returns, variant by variant.
    pub open spec fn spec_message(&self) -> Seq<char> {
        match self {
            QStashError::TokenError => "Could not parse token"@,
            QStashError::ReqwestError => "Reqwest failed to initialize"@,
            QStashError::InvalidUrl => "Invalid Url"@,
            QStashError::PublishError => "Error publishing message"@,
            QStashError::EventError => "Error getting events"@,
            QStashError::DeadLetterQueueError => "Error getting DLQ List"@,
            QStashError::GetMessageError => "Error getting message"@,
            QStashError::DeleteMessageError => "Error deleting message"@,
        }
    }
}

/// The delivery option that an encoding failure points at.
#[derive(Debug, Clone, Copy, PartialEq, Eq, Structural)]
pub enum OptionField {
    /// The override HTTP method.
    Method,
    /// The deduplication id.
    DeduplicationId,
    /// The callback URL.
    Callback,
    /// A caller-supplied pass-through header.
    Headers,
}

/// The precise failure of the publish pipeline.
#[derive(Debug, Clone, Copy, PartialEq, Eq, Structural)]
pub enum PublishFailure {
    /// The destination's publish path does not resolve into a request
    /// URL against the base address.
    InvalidDestination,
    /// A delivery option cannot be encoded as a header value; the field
    /// names the offending option.
    Encoding(OptionField),
    /// The outbound call could not complete.
    Transport,
    /// The response body does not match the shape the destination kind
    /// calls for.
    Decode,
}

impl PublishFailure {
    /// The caller-facing error that this failure surfaces as: every stage
    /// of a failed publish call is reported as a publish error.
    pub fn to_qstash_error(&self) -> (r: QStashError)
        ensures
            r == QStashError::PublishError,
    {
        QStashError::PublishError
    }
}

} // verus!
