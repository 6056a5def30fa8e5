//! Errors of the DIMSE exchange layer.

use vstd::prelude::*;

verus! {

/// A failure of a service exchange, apart from transport failures, which
/// are reported by the transport itself.
#[derive(Clone, Copy, PartialEq, Eq, Debug)]
pub enum ExchangeError {
    /// The peer's response command decoded, but carries no Status.
    MissingStatus,
    /// An attribute set could not be encoded under the transfer syntax.
    EncodeFailed,
    /// Received bytes are not a valid data set under the transfer syntax.
    DecodeFailed,
    /// The document to store carries no SOP Class UID.
    MissingSopClassUid,
    /// The document to store carries no SOP Instance UID.
    MissingSopInstanceUid,
    /// The peer accepted no presentation context.
    NoAcceptedPresentationContext,
    /// The bytes handed in are not a readable DICOM document.
    InvalidDocument,
}

impl ExchangeError {
    /// A short description of the failure.
    pub fn message(&self) -> (r: &'static str)
        ensures
            *self is MissingStatus ==> r@ == "missing Status in response"@,
            *self is EncodeFailed ==> r@ == "failed to encode data set"@,
            *self is DecodeFailed ==> r@ == "failed to decode data set"@,
            *self is MissingSopClassUid ==> r@ == "missing SOP Class UID"@,
            *self is MissingSopInstanceUid ==> r@ == "missing SOP Instance UID"@,
            *self is NoAcceptedPresentationContext ==> r@ == "no accepted presentation context"@,
            *self is InvalidDocument ==> r@ == "not a readable DICOM document"@,
    {
        match self {
            ExchangeError::MissingStatus => "missing Status in response",
            ExchangeError::EncodeFailed => "failed to encode data set",
            ExchangeError::DecodeFailed => "failed to decode data set",
            ExchangeError::MissingSopClassUid => "missing SOP Class UID",
            ExchangeError::MissingSopInstanceUid => "missing SOP Instance UID",
            ExchangeError::NoAcceptedPresentationContext => "no accepted presentation context",
            ExchangeError::InvalidDocument => "not a readable DICOM document",
        }
    }
}

} // verus!
