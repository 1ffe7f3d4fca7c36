//! The conversation between the store and the file system.
//!
//! The store never touches a file. Each operation is a small state machine:
//! it names the one [`Request`] it is waiting on, the caller performs that
//! request against the notes directory and hands back the [`Response`], and
//! the machine answers with a [`Step`]: either its next state or the
//! operation's result. Failures travel as the message of the underlying
//! input/output error.

use vstd::prelude::*;
use crate::names::{has_json_extension, is_json_name};

verus! {

/// What one entry of the notes directory shows to the store.
#[derive(Debug, PartialEq, Eq)]
pub struct DirEntry {
    /// The entry's file name, without any directory in front of it.
    pub name: String,
    /// Whether the entry is a regular file.
    pub is_file: bool,
}

/// The mathematical value of a [`DirEntry`].
pub struct DirEntryView {
    pub name: Seq<char>,
    pub is_file: bool,
}

impl View for DirEntry {
    type V = DirEntryView;

    open spec fn view(&self) -> DirEntryView {
        DirEntryView { name: self.name@, is_file: self.is_file }
    }
}

impl DirEntryView {
    /// A note is a regular file whose extension is exactly `json`.
    pub open spec fn is_note(self) -> bool {
        self.is_file && is_json_name(self.name)
    }
}

impl DirEntry {
    /// Whether this entry is a note: a regular file whose extension is
    /// exactly `json`.
    pub fn is_note(&self) -> (yes: bool)
        ensures
            yes == self@.is_note(),
    {
        self.is_file && has_json_extension(self.name.as_str())
    }
}

/// One thing the store asks of the file system. File names are relative to
/// the notes directory.
#[derive(Debug, PartialEq, Eq)]
pub enum Request {
    /// Does the notes directory exist?
    DirExists,
    /// Create the notes directory, and its parents where they are missing.
    CreateDir,
    /// Write `content` to the file `name`, replacing what it held.
    WriteFile { name: String, content: String },
    /// Start enumerating the notes directory.
    OpenDir,
    /// Hand over the next entry of the enumeration.
    NextEntry,
    /// Read, as text, the whole file that the enumeration handed over last.
    ReadEntry,
    /// Does anything named `name` exist in the notes directory?
    FileExists { name: String },
    /// Remove the file `name`.
    RemoveFile { name: String },
}

/// The mathematical value of a [`Request`].
pub enum RequestView {
    DirExists,
    CreateDir,
    WriteFile { name: Seq<char>, content: Seq<char> },
    OpenDir,
    NextEntry,
    ReadEntry,
    FileExists { name: Seq<char> },
    RemoveFile { name: Seq<char> },
}

impl View for Request {
    type V = RequestView;

    open spec fn view(&self) -> RequestView {
        match *self {
            Request::DirExists => RequestView::DirExists,
            Request::CreateDir => RequestView::CreateDir,
            Request::WriteFile { name, content } => RequestView::WriteFile {
                name: name@,
                content: content@,
            },
            Request::OpenDir => RequestView::OpenDir,
            Request::NextEntry => RequestView::NextEntry,
            Request::ReadEntry => RequestView::ReadEntry,
            Request::FileExists { name } => RequestView::FileExists { name: name@ },
            Request::RemoveFile { name } => RequestView::RemoveFile { name: name@ },
        }
    }
}

impl RequestView {
    /// Whether `response` is of the kind that answers this request.
    pub open spec fn answered_by(self, response: ResponseView) -> bool {
        match self {
            RequestView::DirExists | RequestView::FileExists { .. } => response is Exists,
            RequestView::CreateDir
            | RequestView::WriteFile { .. }
            | RequestView::OpenDir
            | RequestView::RemoveFile { .. } => response is Done,
            RequestView::NextEntry => response is Entry,
            RequestView::ReadEntry => response is Text,
        }
    }
}

/// What the file system answered.
#[derive(Debug, PartialEq, Eq)]
pub enum Response {
    /// The answer to [`Request::DirExists`] and [`Request::FileExists`].
    Exists(bool),
    /// The answer to [`Request::CreateDir`], [`Request::WriteFile`],
    /// [`Request::OpenDir`] and [`Request::RemoveFile`].
    Done(Result<(), String>),
    /// The answer to [`Request::NextEntry`]: `None` once the enumeration is
    /// exhausted, else the entry or the reason it could not be had.
    Entry(Option<Result<DirEntry, String>>),
    /// The answer to [`Request::ReadEntry`].
    Text(Result<String, String>),
}

/// The mathematical value of a [`Response`].
pub enum ResponseView {
    Exists(bool),
    Done(Result<(), Seq<char>>),
    Entry(Option<Result<DirEntryView, Seq<char>>>),
    Text(Result<Seq<char>, Seq<char>>),
}

impl View for Response {
    type V = ResponseView;

    open spec fn view(&self) -> ResponseView {
        match *self {
            Response::Exists(exists) => ResponseView::Exists(exists),
            Response::Done(Ok(())) => ResponseView::Done(Ok(())),
            Response::Done(Err(message)) => ResponseView::Done(Err(message@)),
            Response::Entry(None) => ResponseView::Entry(None),
            Response::Entry(Some(Ok(entry))) => ResponseView::Entry(Some(Ok(entry@))),
            Response::Entry(Some(Err(message))) => ResponseView::Entry(Some(Err(message@))),
            Response::Text(Ok(text)) => ResponseView::Text(Ok(text@)),
            Response::Text(Err(message)) => ResponseView::Text(Err(message@)),
        }
    }
}

impl ResponseView {
    /// The message of the failure that this response reports, if it reports
    /// one.
    pub open spec fn failure(self) -> Option<Seq<char>> {
        match self {
            ResponseView::Done(Err(message)) => Some(message),
            ResponseView::Entry(Some(Err(message))) => Some(message),
            ResponseView::Text(Err(message)) => Some(message),
            _ => None,
        }
    }
}

/// How an operation goes on after an answer.
#[derive(Debug, PartialEq, Eq)]
pub enum Step<S, T> {
    /// The operation is not finished: this is its next state.
    Next(S),
    /// The operation has ended, with this result.
    Done(Result<T, String>),
}

/// The mathematical value of a [`Step`].
pub enum StepView<S, T> {
    Next(S),
    Done(Result<T, Seq<char>>),
}

impl<S: View, T: DeepView> View for Step<S, T> {
    type V = StepView<S::V, T::V>;

    open spec fn view(&self) -> StepView<S::V, T::V> {
        match *self {
            Step::Next(state) => StepView::Next(state@),
            Step::Done(Ok(value)) => StepView::Done(Ok(value.deep_view())),
            Step::Done(Err(message)) => StepView::Done(Err(message@)),
        }
    }
}

/// An operation of the store as a state machine over mathematical values:
/// every state waits on one request, and an answer leads to the next state
/// or to the operation's result.
pub trait Operation: Sized {
    /// What the operation yields where it succeeds.
    type Output;

    /// The request this state is waiting on.
    spec fn pending(self) -> RequestView;

    /// How the operation goes on after `response`.
    spec fn resume(self, response: ResponseView) -> StepView<Self, Self::Output>;

    /// The first failure ends the operation: whatever request fails, the
    /// operation ends with the message of that failure, and asks nothing
    /// more.
    proof fn failure_is_final(self, response: ResponseView)
        requires
            self.pending().answered_by(response),
            response.failure() is Some,
        ensures
            self.resume(response) == StepView::<Self, Self::Output>::Done(
                Err(response.failure()->0),
            ),
    ;

    /// A response that does not answer the pending request changes nothing:
    /// the operation stays where it is and waits on the same request.
    proof fn stray_response_is_ignored(self, response: ResponseView)
        requires
            !self.pending().answered_by(response),
        ensures
            self.resume(response) == StepView::<Self, Self::Output>::Next(self),
    ;
}

} // verus!
