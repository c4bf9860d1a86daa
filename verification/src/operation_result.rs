//! The outcomes of trying to turn one document into a page of the index,
//! other than success.

use vstd::prelude::*;
use vstd::std_specs::convert::FromSpecImpl;
use crate::foreign::io_error_text;

verus! {

/// What a `ParseError` holds.
pub struct ParseErrorView {
    pub directory: Seq<char>,
    pub info: Seq<char>,
}

/// What a `Skip` holds.
pub struct SkipView {
    pub directory: Seq<char>,
    pub reason: Seq<char>,
}

/// What a `PathError` holds.
pub struct PathErrorView {
    pub directory: Seq<char>,
    pub reason: Seq<char>,
}

/// An error that occurs parsing the front matter of a document.
#[derive(Debug)]
pub struct ParseError {
    info: String,
    directory: String,
}

impl View for ParseError {
    type V = ParseErrorView;

    closed spec fn view(&self) -> ParseErrorView {
        ParseErrorView { directory: self.directory@, info: self.info@ }
    }
}

/// The text shown for a parse error.
pub open spec fn parse_error_message(e: ParseErrorView) -> Seq<char> {
    "Error at "@ + e.directory + ". "@ + e.info + ". Skipping."@
}

impl ParseError {
    /// Creates a `ParseError` for the document at `directory`.
    pub fn new(directory: &str, info: &str) -> (res: Self)
        ensures
            res@ == (ParseErrorView { directory: directory@, info: info@ }),
    {
        ParseError { directory: directory.to_owned(), info: info.to_owned() }
    }

    /// The text that `Display` shows: `Error at {directory}. {info}. Skipping.`
    pub fn message(&self) -> (res: String)
        ensures
            res@ == parse_error_message(self@),
    {
        let mut res = "Error at ".to_owned();
        res.append(self.directory.as_str());
        res.append(". ");
        res.append(self.info.as_str());
        res.append(". Skipping.");
        res
    }

    /// The short description: the information given at creation.
    pub fn description(&self) -> (res: &str)
        ensures
            res@ == self@.info,
    {
        self.info.as_str()
    }
}

/// A document that was skipped over, typically due to being a draft.
#[derive(Debug, PartialEq)]
pub struct Skip {
    reason: String,
    directory: String,
}

impl View for Skip {
    type V = SkipView;

    closed spec fn view(&self) -> SkipView {
        SkipView { directory: self.directory@, reason: self.reason@ }
    }
}

/// The text shown for a skipped document.
pub open spec fn skip_message(s: SkipView) -> Seq<char> {
    "Skipping "@ + s.directory + ". "@ + s.reason
}

impl Skip {
    /// Creates a `Skip` for the document at `directory`.
    pub fn new(directory: &str, reason: &str) -> (res: Self)
        ensures
            res@ == (SkipView { directory: directory@, reason: reason@ }),
    {
        Skip { directory: directory.to_owned(), reason: reason.to_owned() }
    }

    /// The text that `Display` shows: `Skipping {directory}. {reason}`
    pub fn message(&self) -> (res: String)
        ensures
            res@ == skip_message(self@),
    {
        let mut res = "Skipping ".to_owned();
        res.append(self.directory.as_str());
        res.append(". ");
        res.append(self.reason.as_str());
        res
    }

    /// The short description: the reason for skipping.
    pub fn description(&self) -> (res: &str)
        ensures
            res@ == self@.reason,
    {
        self.reason.as_str()
    }
}

/// An error that occurs constructing a path.
#[derive(Debug, PartialEq)]
pub struct PathError {
    reason: String,
    directory: String,
}

impl View for PathError {
    type V = PathErrorView;

    closed spec fn view(&self) -> PathErrorView {
        PathErrorView { directory: self.directory@, reason: self.reason@ }
    }
}

/// The text shown for a path error.
pub open spec fn path_error_message(p: PathErrorView) -> Seq<char> {
    "Skipping "@ + p.directory + ". "@ + p.reason
}

impl PathError {
    /// Creates a `PathError` for the document at `directory`.
    pub fn new(directory: &str, reason: &str) -> (res: Self)
        ensures
            res@ == (PathErrorView { directory: directory@, reason: reason@ }),
    {
        PathError { directory: directory.to_owned(), reason: reason.to_owned() }
    }

    /// The text that `Display` shows: `Skipping {directory}. {reason}`
    pub fn message(&self) -> (res: String)
        ensures
            res@ == path_error_message(self@),
    {
        let mut res = "Skipping ".to_owned();
        res.append(self.directory.as_str());
        res.append(". ");
        res.append(self.reason.as_str());
        res
    }

    /// The short description: the reason the path could not be built.
    pub fn description(&self) -> (res: &str)
        ensures
            res@ == self@.reason,
    {
        self.reason.as_str()
    }
}

/// What an `OperationResult` holds, the I/O error left opaque.
pub enum OperationResultView {
    Io,
    Parse(ParseErrorView),
    Skip(SkipView),
    Path(PathErrorView),
}

/// The possible error results of trying to create a `PageIndex` from a document.
#[derive(Debug)]
pub enum OperationResult {
    /// An IO error occurred.
    Io(std::io::Error),
    /// A parse error occurred.
    Parse(ParseError),
    /// It was skipped, possibly due to being a draft, or because its front
    /// matter was not supported.
    Skip(Skip),
    /// There was an error constructing a path.
    Path(PathError),
}

impl View for OperationResult {
    type V = OperationResultView;

    open spec fn view(&self) -> OperationResultView {
        match self {
            OperationResult::Io(_) => OperationResultView::Io,
            OperationResult::Parse(e) => OperationResultView::Parse(e@),
            OperationResult::Skip(s) => OperationResultView::Skip(s@),
            OperationResult::Path(p) => OperationResultView::Path(p@),
        }
    }
}

impl OperationResult {
    /// The text that `Display` shows: the kind of outcome followed by the
    /// inner error's text.
    pub fn message(&self) -> (res: String)
        ensures
            match self {
                OperationResult::Io(_) => exists|t: Seq<char>| res@ == "IO error: "@ + t,
                OperationResult::Parse(e) => res@ == "Parse error: "@ + parse_error_message(e@),
                OperationResult::Skip(s) => res@ == "Skipped: "@ + skip_message(s@),
                OperationResult::Path(p) => res@ == "Path manipulaiton error: "@
                    + path_error_message(p@),
            },
    {
        let (mut res, inner) = match self {
            OperationResult::Io(err) => ("IO error: ".to_owned(), io_error_text(err)),
            OperationResult::Parse(err) => ("Parse error: ".to_owned(), err.message()),
            OperationResult::Skip(err) => ("Skipped: ".to_owned(), err.message()),
            OperationResult::Path(err) => ("Path manipulaiton error: ".to_owned(), err.message()),
        };
        let ghost head = res@;
        res.append(inner.as_str());
        assert(res@ == head + inner@);
        res
    }
}

impl From<std::io::Error> for OperationResult {
    fn from(err: std::io::Error) -> (res: Self) {
        OperationResult::Io(err)
    }
}

impl FromSpecImpl<std::io::Error> for OperationResult {
    open spec fn obeys_from_spec() -> bool {
        true
    }

    open spec fn from_spec(err: std::io::Error) -> Self {
        OperationResult::Io(err)
    }
}

impl From<Skip> for OperationResult {
    fn from(err: Skip) -> (res: Self) {
        OperationResult::Skip(err)
    }
}

impl FromSpecImpl<Skip> for OperationResult {
    open spec fn obeys_from_spec() -> bool {
        true
    }

    open spec fn from_spec(err: Skip) -> Self {
        OperationResult::Skip(err)
    }
}

impl From<ParseError> for OperationResult {
    fn from(err: ParseError) -> (res: Self) {
        OperationResult::Parse(err)
    }
}

impl FromSpecImpl<ParseError> for OperationResult {
    open spec fn obeys_from_spec() -> bool {
        true
    }

    open spec fn from_spec(err: ParseError) -> Self {
        OperationResult::Parse(err)
    }
}

impl From<PathError> for OperationResult {
    fn from(err: PathError) -> (res: Self) {
        OperationResult::Path(err)
    }
}

impl FromSpecImpl<PathError> for OperationResult {
    open spec fn obeys_from_spec() -> bool {
        true
    }

    open spec fn from_spec(err: PathError) -> Self {
        OperationResult::Path(err)
    }
}

} // verus!
