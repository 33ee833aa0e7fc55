//! What can go wrong in a store.

use crate::store_path::StorePath;
use vstd::prelude::*;

verus! {

/// Why a document cannot be taken for what it should hold.
#[derive(Debug, PartialEq, Eq)]
pub enum DocumentFault {
    /// The text is no TOML document. `message` is the parser's complaint.
    Syntax { message: String },
    /// A key that must be there is not.
    MissingKey { key: String },
    /// A key holds a value of another type than it should.
    WrongType { key: String },
    /// A key that counts something holds a number below zero.
    Negative { key: String },
}

/// A [`DocumentFault`] as contracts speak of it.
pub ghost enum DocumentFaultView {
    Syntax { message: Seq<char> },
    MissingKey { key: Seq<char> },
    WrongType { key: Seq<char> },
    Negative { key: Seq<char> },
}

impl View for DocumentFault {
    type V = DocumentFaultView;

    open spec fn view(&self) -> DocumentFaultView {
        match self {
            DocumentFault::Syntax { message } => DocumentFaultView::Syntax { message: message@ },
            DocumentFault::MissingKey { key } => DocumentFaultView::MissingKey { key: key@ },
            DocumentFault::WrongType { key } => DocumentFaultView::WrongType { key: key@ },
            DocumentFault::Negative { key } => DocumentFaultView::Negative { key: key@ },
        }
    }
}

/// Every way in which an operation on a store fails.
#[derive(Debug, PartialEq, Eq)]
#[allow(inconsistent_fields)]
pub enum FdahmError {
    /// The path given for the root is no directory.
    NotADirectory { path: String },
    /// A document could not be read. `base` is what the system said, `path`
    /// the file that was tried.
    CannotRead { base: String, path: StorePath },
    /// A document was read but does not hold what it should.
    MalformedToml { base: DocumentFault, path: StorePath },
    /// The video of this id has neither thumbnail.
    NoThumbnail(String),
    /// The video of this id has both thumbnails.
    AmbiguousThumbnail(String),
    /// The video is marked as published, and publishing was not forced.
    AlreadyPublished,
    /// The updated document could not be written. `base` is what the system
    /// said.
    CannotMarkPublished { base: String },
}

/// A [`FdahmError`] as contracts speak of it.
#[allow(inconsistent_fields)]
pub ghost enum FdahmErrorView {
    NotADirectory { path: Seq<char> },
    CannotRead { base: Seq<char>, path: Seq<Seq<char>> },
    MalformedToml { base: DocumentFaultView, path: Seq<Seq<char>> },
    NoThumbnail(Seq<char>),
    AmbiguousThumbnail(Seq<char>),
    AlreadyPublished,
    CannotMarkPublished { base: Seq<char> },
}

impl View for FdahmError {
    type V = FdahmErrorView;

    open spec fn view(&self) -> FdahmErrorView {
        match self {
            FdahmError::NotADirectory { path } => FdahmErrorView::NotADirectory { path: path@ },
            FdahmError::CannotRead { base, path } => FdahmErrorView::CannotRead {
                base: base@,
                path: path@,
            },
            FdahmError::MalformedToml { base, path } => FdahmErrorView::MalformedToml {
                base: base@,
                path: path@,
            },
            FdahmError::NoThumbnail(id) => FdahmErrorView::NoThumbnail(id@),
            FdahmError::AmbiguousThumbnail(id) => FdahmErrorView::AmbiguousThumbnail(id@),
            FdahmError::AlreadyPublished => FdahmErrorView::AlreadyPublished,
            FdahmError::CannotMarkPublished { base } => FdahmErrorView::CannotMarkPublished {
                base: base@,
            },
        }
    }
}

/// What an operation on a store gives.
pub type FdahmResult<T> = Result<T, FdahmError>;

/// What reading a file gave: its text, or what the system said when it failed.
pub type ReadOutcome = Result<String, String>;

/// What writing a file gave: nothing, or what the system said when it failed.
pub type WriteOutcome = Result<(), String>;

/// A [`FdahmResult`] as contracts speak of it.
pub open spec fn result_view<T: View>(result: FdahmResult<T>) -> Result<T::V, FdahmErrorView> {
    match result {
        Ok(value) => Ok(value@),
        Err(error) => Err(error@),
    }
}

/// A decoded value, or the fault in its document, as contracts speak of them.
pub open spec fn decoded_view<T: View>(result: Result<T, DocumentFault>) -> Result<
    T::V,
    DocumentFaultView,
> {
    match result {
        Ok(value) => Ok(value@),
        Err(fault) => Err(fault@),
    }
}

/// A [`ReadOutcome`] as contracts speak of it.
pub open spec fn outcome_view(outcome: ReadOutcome) -> Result<Seq<char>, Seq<char>> {
    match outcome {
        Ok(text) => Ok(text@),
        Err(base) => Err(base@),
    }
}

} // verus!
