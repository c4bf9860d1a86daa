//! Errors of a whole run of the program.

use vstd::prelude::*;
use vstd::std_specs::convert::FromSpecImpl;
use crate::foreign::{io_error_description, io_error_text, json_error_description, json_error_text};
use crate::text::{decimal, decimal_text};

verus! {

/// What a `MetaError` holds.
pub struct MetaErrorView {
    pub reason: Seq<char>,
    pub count: nat,
}

/// An error about the run as a whole: `count` things went wrong.
#[derive(Debug)]
pub struct MetaError {
    reason: String,
    count: usize,
}

impl View for MetaError {
    type V = MetaErrorView;

    closed spec fn view(&self) -> MetaErrorView {
        MetaErrorView { reason: self.reason@, count: self.count as nat }
    }
}

/// The text shown for a meta error.
pub open spec fn meta_error_message(e: MetaErrorView) -> Seq<char> {
    "Program Error "@ + e.reason + ": "@ + decimal(e.count)
}

impl MetaError {
    /// Creates a `MetaError`.
    pub fn new(count: usize, reason: &str) -> (res: Self)
        ensures
            res@ == (MetaErrorView { reason: reason@, count: count as nat }),
    {
        MetaError { count, reason: reason.to_owned() }
    }

    /// The text that `Display` shows: `Program Error {reason}: {count}`
    pub fn message(&self) -> (res: String)
        ensures
            res@ == meta_error_message(self@),
    {
        let mut res = "Program Error ".to_owned();
        res.append(self.reason.as_str());
        res.append(": ");
        let count = decimal_text(self.count);
        res.append(count.as_str());
        res
    }

    /// The short description: the reason.
    pub fn description(&self) -> (res: &str)
        ensures
            res@ == self@.reason,
    {
        self.reason.as_str()
    }
}

/// The errors of a run of the program.
#[derive(Debug)]
pub enum ProgramError {
    IoError(std::io::Error),
    MetaError(MetaError),
    SerializationError(serde_json::Error),
}

impl ProgramError {
    /// The text that `Display` shows: a heading, then the inner error's text.
    pub fn message(&self) -> (res: String)
        ensures
            match self {
                ProgramError::IoError(_) => exists|t: Seq<char>| res@ == "IO error: "@ + t,
                ProgramError::MetaError(e) => res@ == "Serialization error: "@
                    + meta_error_message(e@),
                ProgramError::SerializationError(_) => exists|t: Seq<char>|
                    res@ == "Serialization error: "@ + t,
            },
    {
        let (mut res, inner) = match self {
            ProgramError::IoError(err) => ("IO error: ".to_owned(), io_error_text(err)),
            ProgramError::MetaError(err) => ("Serialization error: ".to_owned(), err.message()),
            ProgramError::SerializationError(err) => (
                "Serialization error: ".to_owned(),
                json_error_text(err),
            ),
        };
        let ghost head = res@;
        res.append(inner.as_str());
        assert(res@ == head + inner@);
        res
    }

    /// The short description, that of the inner error.
    pub fn description(&self) -> (res: String)
        ensures
            self matches ProgramError::MetaError(e) ==> res@ == e@.reason,
    {
        match self {
            ProgramError::IoError(err) => io_error_description(err),
            ProgramError::MetaError(err) => err.description().to_owned(),
            ProgramError::SerializationError(err) => json_error_description(err),
        }
    }
}

impl From<std::io::Error> for ProgramError {
    fn from(err: std::io::Error) -> (res: Self) {
        ProgramError::IoError(err)
    }
}

impl FromSpecImpl<std::io::Error> for ProgramError {
    open spec fn obeys_from_spec() -> bool {
        true
    }

    open spec fn from_spec(err: std::io::Error) -> Self {
        ProgramError::IoError(err)
    }
}

impl From<MetaError> for ProgramError {
    fn from(err: MetaError) -> (res: Self) {
        ProgramError::MetaError(err)
    }
}

impl FromSpecImpl<MetaError> for ProgramError {
    open spec fn obeys_from_spec() -> bool {
        true
    }

    open spec fn from_spec(err: MetaError) -> Self {
        ProgramError::MetaError(err)
    }
}

impl From<serde_json::Error> for ProgramError {
    fn from(err: serde_json::Error) -> (res: Self) {
        ProgramError::SerializationError(err)
    }
}

impl FromSpecImpl<serde_json::Error> for ProgramError {
    open spec fn obeys_from_spec() -> bool {
        true
    }

    open spec fn from_spec(err: serde_json::Error) -> Self {
        ProgramError::SerializationError(err)
    }
}

} // verus!
