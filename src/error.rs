//! Error kinds shared by the catalog, the artifact store and the registry.
use vstd::prelude::*;

verus! {

/// The class of a failure, so that callers can map each one to a response.
#[derive(Debug, Clone, Copy, PartialEq, Eq, Structural)]
pub enum ErrType {
    /// A filesystem operation failed.
    IO,
    /// The catalog's database failed.
    DB,
    /// The configuration or a precondition is invalid.
    Usage,
    /// A record with the same name and version already exists.
    Conflict,
    /// The record or artifact does not exist.
    NotFound,
    /// The catalog and the artifact store disagree.
    Inconsistent,
    /// The catalog row was removed but the artifact could not be.
    PartialDelete,
}

/// A failure with its class, a message and, where one exists, the text of its cause.
#[derive(Debug, Clone)]
pub struct Error {
    pub kind: ErrType,
    pub source: Option<String>,
    pub message: Option<String>,
}

impl Error {
    /// Construct an error of the given kind with a message and no cause.
    pub fn new(kind: ErrType, message: &str) -> (r: Error)
        ensures
            r.kind == kind,
            r.source.is_none(),
            r.message is Some,
            r.message->Some_0@ == message@,
    {
        Error { kind, source: None, message: Some(message.to_string()) }
    }
}

} // verus!
