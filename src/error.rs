use vstd::prelude::*;

verus! {

/// Why a value was rejected locally, before anything was sent.
#[derive(Debug, Clone, Copy, PartialEq, Eq, Structural)]
pub enum ValidationKind {
    /// A record identifier was empty.
    EmptyRecordId,
    /// A batch held more records than one request may carry.
    BatchTooLarge,
    /// A field name appeared twice.
    DuplicateFieldName,
    /// A field name is not part of the bound record type.
    UnknownField,
    /// A page size was zero or above the documented ceiling.
    PageSizeOutOfRange,
}

/// Every failure the records client reports.
#[derive(Debug, Clone)]
pub enum ClientError {
    /// Malformed input detected locally; nothing was sent.
    Validation(ValidationKind),
    /// A non-retryable response, or the retry budget ran out.
    RemoteError { status: u16, body: String },
    /// The remote store has no such record.
    NotFound,
    /// The connection failed and the retry budget ran out.
    Transport,
    /// The caller abandoned the operation.
    Cancelled,
    /// The response does not match the request it answers.
    InconsistentResponse,
}

} // verus!
