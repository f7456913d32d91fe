//! The ways an invocation of the adapter can fail.
use vstd::prelude::*;

verus! {

/// A failed invocation. Every failure is scoped to the one invocation that met it.
#[derive(Debug, Clone, PartialEq, Eq)]
pub enum AdapterError {
    /// No login token is set.
    MissingCredential,
    /// The settings document is not JSON.
    InvalidSettings,
    /// The transport could not complete the exchange; its message is kept as it came.
    TransportError(String),
    /// The reply arrived but does not have the expected shape.
    MalformedResponse,
    /// An element or field that the reply should hold is absent.
    NotFound,
}

/// An error as plain values.
pub enum ErrorModel {
    MissingCredential,
    InvalidSettings,
    TransportError(Seq<char>),
    MalformedResponse,
    NotFound,
}

impl View for AdapterError {
    type V = ErrorModel;

    open spec fn view(&self) -> ErrorModel {
        match self {
            AdapterError::MissingCredential => ErrorModel::MissingCredential,
            AdapterError::InvalidSettings => ErrorModel::InvalidSettings,
            AdapterError::TransportError(m) => ErrorModel::TransportError(m@),
            AdapterError::MalformedResponse => ErrorModel::MalformedResponse,
            AdapterError::NotFound => ErrorModel::NotFound,
        }
    }
}

} // verus!
