//! Failures of the store and of the request proxy.

use vstd::prelude::*;
use vstd::string::*;

verus! {

/// What the caller is told when no store has been installed.
pub const NOT_INITIALIZED_MESSAGE: &'static str = "DB not initialized";

/// What precedes the offending method in the message for an unsupported one.
pub const UNSUPPORTED_METHOD_PREFIX: &'static str = "Unsupported method: ";

/// A failure of a store operation.
#[derive(Clone, Debug, PartialEq, Eq)]
pub enum StoreError {
    /// No store is installed: opening it failed at startup, or has not
    /// happened yet.
    NotInitialized,
    /// The store file could not be opened or created; holds the cause.
    StorageUnavailable(String),
    /// The engine rejected a statement; holds the engine's message.
    QueryError(String),
}

impl StoreError {
    /// The text of the message that describes this failure.
    pub open spec fn message_text(self) -> Seq<char> {
        match self {
            StoreError::NotInitialized => NOT_INITIALIZED_MESSAGE@,
            StoreError::StorageUnavailable(cause) => cause@,
            StoreError::QueryError(cause) => cause@,
        }
    }

    /// The descriptive string handed to the caller.
    pub fn message(&self) -> (s: String)
        ensures
            s@ == self.message_text(),
    {
        match self {
            StoreError::NotInitialized => String::from_str(NOT_INITIALIZED_MESSAGE),
            StoreError::StorageUnavailable(cause) => cause.clone(),
            StoreError::QueryError(cause) => cause.clone(),
        }
    }
}

/// A failure of the request proxy.
#[derive(Clone, Debug, PartialEq, Eq)]
pub enum ProxyError {
    /// The method is none of GET, POST, PUT, DELETE; holds the method as the
    /// caller wrote it.
    UnsupportedMethod(String),
    /// Talking to the worker failed; holds the cause.
    Transport(String),
}

impl ProxyError {
    /// The text of the message that describes this failure.
    pub open spec fn message_text(self) -> Seq<char> {
        match self {
            ProxyError::UnsupportedMethod(method) => UNSUPPORTED_METHOD_PREFIX@ + method@,
            ProxyError::Transport(cause) => cause@,
        }
    }

    /// The descriptive string handed to the caller.
    pub fn message(&self) -> (s: String)
        ensures
            s@ == self.message_text(),
    {
        match self {
            ProxyError::UnsupportedMethod(method) => String::from_str(
                UNSUPPORTED_METHOD_PREFIX,
            ).concat(method.as_str()),
            ProxyError::Transport(cause) => cause.clone(),
        }
    }
}

} // verus!
