//! The failures that every adapter reports, whatever the provider.
use vstd::prelude::*;

verus! {

/// Why an operation produced no result.
#[derive(Debug, Clone, PartialEq, Eq)]
pub enum AdapterError {
    /// The transport could not complete the request; its message is kept.
    RequestFailed(String),
    /// The response bytes are not valid UTF-8.
    InvalidEncoding,
    /// The response is not JSON, or lacks a field the operation needs; the
    /// response text is kept.
    MalformedResponse(String),
    /// A list in the response that must hold an element was empty.
    EmptyResponseArray,
    /// The provider signalled failure through the status code or the body.
    ProviderError,
}

/// The mathematical value of an [`AdapterError`].
pub enum ErrorModel {
    RequestFailed(Seq<char>),
    InvalidEncoding,
    MalformedResponse(Seq<char>),
    EmptyResponseArray,
    ProviderError,
}

impl View for AdapterError {
    type V = ErrorModel;

    open spec fn view(&self) -> ErrorModel {
        match self {
            AdapterError::RequestFailed(m) => ErrorModel::RequestFailed(m@),
            AdapterError::InvalidEncoding => ErrorModel::InvalidEncoding,
            AdapterError::MalformedResponse(b) => ErrorModel::MalformedResponse(b@),
            AdapterError::EmptyResponseArray => ErrorModel::EmptyResponseArray,
            AdapterError::ProviderError => ErrorModel::ProviderError,
        }
    }
}

/// The mathematical value of an operation's outcome.
pub open spec fn result_view<T: View>(r: Result<T, AdapterError>) -> Result<T::V, ErrorModel> {
    match r {
        Ok(v) => Ok(v@),
        Err(e) => Err(e@),
    }
}

/// Feeds a successful step into the next one; a failure passes through.
pub open spec fn and_then_model<A, B>(
    r: Result<A, ErrorModel>,
    next: spec_fn(A) -> Result<B, ErrorModel>,
) -> Result<B, ErrorModel> {
    match r {
        Ok(a) => next(a),
        Err(e) => Err(e),
    }
}

/// What decoding the response text `text` gives when the fields read from it
/// are `fields`: a missing or ill-typed field makes the response malformed.
pub open spec fn decoded<V>(text: Seq<char>, fields: Option<V>) -> Result<V, ErrorModel> {
    match fields {
        Some(v) => Ok(v),
        None => Err(ErrorModel::MalformedResponse(text)),
    }
}

} // verus!
