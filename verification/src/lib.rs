use vstd::prelude::*;

pub mod controller;
pub mod manifest;
pub mod minecraft;
pub mod state;

verus! {

/// Errors surfaced by one reconciliation attempt.
///
/// The transport layer hands the library a plain description of what went
/// wrong; classification into a scheduling action is done by `error_policy`.
#[derive(Debug, Clone, PartialEq)]
pub enum Error {
    /// Attaching or removing the finalizer marker, or one of the child
    /// operations run under it, failed; carries the transport message.
    FinalizerError(String),
    /// A child manifest could not be marshalled; treated as a logic defect.
    SerializationError(String),
}

} // verus!
