//! The errors that stop the building of an index.

use vstd::prelude::*;
use vstd::std_specs::convert::FromSpecImpl;
use crate::foreign::{io_error_text, json_error_text};
use crate::text::{decimal, decimal_text};

verus! {

/// The errors that stop the building or writing of an index.
#[derive(Debug)]
pub enum HugotoJsonError {
    /// Reading the content directory or writing the index failed.
    Io(std::io::Error),
    /// The index was written, but `total` documents could not be processed.
    Meta { total: usize },
    /// The index could not be serialised.
    Serialization(serde_json::Error),
    /// Anything else.
    Unknown,
}

impl HugotoJsonError {
    /// The text that `Display` shows for each kind of error.
    pub fn message(&self) -> (res: String)
        ensures
            match self {
                HugotoJsonError::Io(_) => exists|t: Seq<char>| res@ == "IO Error: "@ + t,
                HugotoJsonError::Meta { total } => res@ == "An error occurred. Failed to process "@
                    + decimal(*total as nat) + " files."@,
                HugotoJsonError::Serialization(_) => exists|t: Seq<char>|
                    res@ == "An error occurred serializing the index: "@ + t,
                HugotoJsonError::Unknown => res@ == "Unknown error"@,
            },
    {
        match self {
            HugotoJsonError::Io(err) => {
                let mut res = "IO Error: ".to_owned();
                let ghost head = res@;
                let inner = io_error_text(err);
                res.append(inner.as_str());
                assert(res@ == head + inner@);
                res
            },
            HugotoJsonError::Meta { total } => {
                let mut res = "An error occurred. Failed to process ".to_owned();
                let count = decimal_text(*total);
                res.append(count.as_str());
                res.append(" files.");
                res
            },
            HugotoJsonError::Serialization(err) => {
                let mut res = "An error occurred serializing the index: ".to_owned();
                let ghost head = res@;
                let inner = json_error_text(err);
                res.append(inner.as_str());
                assert(res@ == head + inner@);
                res
            },
            HugotoJsonError::Unknown => "Unknown error".to_owned(),
        }
    }
}

impl From<std::io::Error> for HugotoJsonError {
    fn from(err: std::io::Error) -> (res: Self) {
        HugotoJsonError::Io(err)
    }
}

impl FromSpecImpl<std::io::Error> for HugotoJsonError {
    open spec fn obeys_from_spec() -> bool {
        true
    }

    open spec fn from_spec(err: std::io::Error) -> Self {
        HugotoJsonError::Io(err)
    }
}

impl From<serde_json::Error> for HugotoJsonError {
    fn from(err: serde_json::Error) -> (res: Self) {
        HugotoJsonError::Serialization(err)
    }
}

impl FromSpecImpl<serde_json::Error> for HugotoJsonError {
    open spec fn obeys_from_spec() -> bool {
        true
    }

    open spec fn from_spec(err: serde_json::Error) -> Self {
        HugotoJsonError::Serialization(err)
    }
}

} // verus!
