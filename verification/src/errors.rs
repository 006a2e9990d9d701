//! Error taxonomy of the engine: absent or foreign resources, actions that the
//! current lifecycle state refuses, and collaborator failures.

use vstd::prelude::*;

verus! {

/// Why an action was refused.
///
/// `NotFound` covers both a truly absent resource and one the caller may not
/// act on: the two are answered identically so that existence is not leaked.
/// `InvalidState` is a client error: the resource exists and belongs to the
/// caller, but its lifecycle state forbids the action.
/// `Upstream` marks a collaborator failure (persistence, chat relay).
#[derive(Clone, Copy, Debug, PartialEq, Eq, Structural)]
pub enum ErrorKind {
    NotFound,
    InvalidState,
    Upstream,
}

/// An error surfaced to the caller of an engine action.
#[derive(Clone, Debug)]
pub struct AppError {
    pub kind: ErrorKind,
    pub message: String,
}

impl AppError {
    pub fn not_found(message: String) -> (r: AppError)
        ensures
            r.kind == ErrorKind::NotFound,
            r.message == message,
    {
        AppError { kind: ErrorKind::NotFound, message }
    }

    pub fn invalid_state(message: String) -> (r: AppError)
        ensures
            r.kind == ErrorKind::InvalidState,
            r.message == message,
    {
        AppError { kind: ErrorKind::InvalidState, message }
    }

    pub fn upstream(message: String) -> (r: AppError)
        ensures
            r.kind == ErrorKind::Upstream,
            r.message == message,
    {
        AppError { kind: ErrorKind::Upstream, message }
    }

    /// A human-readable rendering of the error.
    pub fn describe(&self) -> (r: String)
        ensures
            r@ == self.message@,
    {
        self.message.clone()
    }
}

} // verus!
