//! Errors of the command line front end: a parse error that may carry its
//! cause, and the error of a command line run.

use vstd::prelude::*;
use crate::foreign::{io_error_description, io_error_text};
use crate::operation_result::{parse_error_message, ParseErrorView};

verus! {

/// An error parsing a document, which may carry the error that caused it.
#[derive(Clone, Debug)]
pub struct ParseError<C> {
    info: String,
    directory: String,
    error: Option<C>,
}

impl<C> View for ParseError<C> {
    type V = ParseErrorView;

    closed spec fn view(&self) -> ParseErrorView {
        ParseErrorView { directory: self.directory@, info: self.info@ }
    }
}

impl<C> ParseError<C> {
    /// The cause that the error carries.
    pub closed spec fn spec_cause(&self) -> Option<C> {
        self.error
    }

    /// Creates a `ParseError` for the document at `directory`, with its cause.
    pub fn new(directory: String, info: &str, error: Option<C>) -> (res: Self)
        ensures
            res@ == (ParseErrorView { directory: directory@, info: info@ }),
            res.spec_cause() == error,
    {
        ParseError { directory, info: info.to_owned(), error }
    }

    /// The text that `Display` shows: `Error at {directory}. {info}. Skipping.`
    pub fn message(&self) -> (res: String)
        ensures
            res@ == parse_error_message(self@),
    {
        let mut res = "Error at ".to_owned();
        res.append(self.directory.as_str());
        res.append(". ");
        res.append(self.info.as_str());
        res.append(". Skipping.");
        res
    }

    /// The description, which is the text that `Display` shows.
    pub fn description(&self) -> (res: String)
        ensures
            res@ == parse_error_message(self@),
    {
        self.message()
    }

    /// The error that caused this one, if any.
    pub fn cause(&self) -> (res: Option<&C>)
        ensures
            res is Some <==> self.spec_cause() is Some,
            res matches Some(c) ==> self.spec_cause() == Some(*c),
    {
        match &self.error {
            Some(c) => Some(c),
            None => None,
        }
    }
}

/// The error of a command line run.
#[derive(Debug)]
pub enum CliError<C> {
    Io(std::io::Error),
    Parse(ParseError<C>),
}

impl<C> CliError<C> {
    /// The text that `Display` shows: a heading, then the inner error's text.
    pub fn message(&self) -> (res: String)
        ensures
            match self {
                CliError::Io(_) => exists|t: Seq<char>| res@ == "IO error: "@ + t,
                CliError::Parse(e) => res@ == "Parse error: "@ + parse_error_message(e@),
            },
    {
        let (mut res, inner) = match self {
            CliError::Io(err) => ("IO error: ".to_owned(), io_error_text(err)),
            CliError::Parse(err) => ("Parse error: ".to_owned(), err.message()),
        };
        let ghost head = res@;
        res.append(inner.as_str());
        assert(res@ == head + inner@);
        res
    }

    /// The description, that of the inner error.
    pub fn description(&self) -> (res: String)
        ensures
            self matches CliError::Parse(e) ==> res@ == parse_error_message(e@),
    {
        match self {
            CliError::Io(err) => io_error_description(err),
            CliError::Parse(err) => err.description(),
        }
    }
}

} // verus!
