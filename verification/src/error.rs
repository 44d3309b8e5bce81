//! Error taxonomy of the generation pipeline.
//!
//! Errors carry a kind, a human-readable stage label (usually the path or
//! field the failure concerns) and an optional wrapped cause, so that the
//! caller can print the whole chain.

use vstd::prelude::*;

verus! {

/// Failure of metadata decoding.
#[derive(Debug, Clone, Copy, PartialEq, Eq, Structural)]
pub enum MetaError {
    /// The required `title` field is absent or not a string.
    MissingField,
    /// A `date` field is present but does not parse as `YYYY-MM-DD`.
    DateFormat,
    /// A recognized field has the wrong shape (e.g. `tags` is not a
    /// sequence of strings).
    Type,
}

/// The fatal failure classes of the pipeline.
#[derive(Debug, Clone, Copy, PartialEq, Eq, Structural)]
pub enum ErrorKind {
    /// An unreadable or unwritable filesystem entry.
    Io,
    /// A malformed configuration document or a missing required field.
    Config,
    /// A content file without the three-part header/body structure.
    ContentFormat,
    /// A malformed metadata header.
    Metadata(MetaError),
    /// An unknown template or a render-time failure.
    Template,
    /// A path that escapes its expected root.
    Path,
}

/// An error with a stage label and an optional wrapped cause.
#[derive(Debug)]
pub struct Error {
    pub kind: ErrorKind,
    /// What the failure concerns: a path, a field name, a stage description.
    pub stage: String,
    pub cause: Option<Box<Error>>,
}

impl Error {
    /// A fresh error without a cause.
    pub fn new(kind: ErrorKind, stage: String) -> (r: Error)
        ensures
            r.kind == kind,
            r.stage == stage,
            r.cause is None,
    {
        Error { kind, stage, cause: None }
    }

    /// Wraps `self` as the cause of a new error, adding context.
    pub fn wrap(self, kind: ErrorKind, stage: String) -> (r: Error)
        ensures
            r.kind == kind,
            r.stage == stage,
            r.cause == Some(Box::new(self)),
    {
        Error { kind, stage, cause: Some(Box::new(self)) }
    }
}

} // verus!
