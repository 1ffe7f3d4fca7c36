//! Deleting a note: its file is removed, if there is one.

use vstd::prelude::*;
use crate::names::{file_name_of, note_file_name};
use crate::protocol::{Operation, Request, RequestView, Response, ResponseView, Step, StepView};

verus! {

/// Where a deletion stands: the request it is waiting on.
#[derive(Debug, Clone, Copy, PartialEq, Eq)]
pub enum DeletePhase {
    /// Asking whether the note's file exists.
    ProbeFile,
    /// Removing the note's file.
    Remove,
}

/// A deletion in progress.
#[derive(Debug, PartialEq, Eq)]
pub struct DeleteNote {
    file_name: String,
    phase: DeletePhase,
}

/// The mathematical value of a [`DeleteNote`]: the file to remove and the
/// phase.
pub struct DeleteNoteView {
    pub file_name: Seq<char>,
    pub phase: DeletePhase,
}

impl View for DeleteNote {
    type V = DeleteNoteView;

    closed spec fn view(&self) -> DeleteNoteView {
        DeleteNoteView { file_name: self.file_name@, phase: self.phase }
    }
}

impl DeleteNoteView {
    /// A deletion of the note `id` that has asked nothing yet.
    pub open spec fn start(id: Seq<char>) -> DeleteNoteView {
        DeleteNoteView { file_name: file_name_of(id), phase: DeletePhase::ProbeFile }
    }

    /// The same deletion in another phase.
    pub open spec fn at(self, phase: DeletePhase) -> DeleteNoteView {
        DeleteNoteView { file_name: self.file_name, phase }
    }
}

impl Operation for DeleteNoteView {
    type Output = ();

    /// The request this state is waiting on.
    open spec fn pending(self) -> RequestView {
        match self.phase {
            DeletePhase::ProbeFile => RequestView::FileExists { name: self.file_name },
            DeletePhase::Remove => RequestView::RemoveFile { name: self.file_name },
        }
    }

    /// How the deletion goes on after `response`.
    ///
    /// Where the file does not exist there is nothing to do, and the
    /// deletion has succeeded. Where it does, it is removed, and the outcome
    /// of the removal is the outcome of the deletion. A response that does
    /// not answer the pending request changes nothing.
    open spec fn resume(self, response: ResponseView) -> StepView<DeleteNoteView, ()> {
        match (self.phase, response) {
            (DeletePhase::ProbeFile, ResponseView::Exists(false)) => StepView::Done(Ok(())),
            (DeletePhase::ProbeFile, ResponseView::Exists(true)) => StepView::Next(
                self.at(DeletePhase::Remove),
            ),
            (DeletePhase::Remove, ResponseView::Done(outcome)) => StepView::Done(outcome),
            _ => StepView::Next(self),
        }
    }

    proof fn failure_is_final(self, response: ResponseView) {
    }

    proof fn stray_response_is_ignored(self, response: ResponseView) {
    }
}

/// Begins deleting the note `id`.
pub fn delete_note(id: &str) -> (task: DeleteNote)
    ensures
        task@ == DeleteNoteView::start(id@),
{
    DeleteNote { file_name: note_file_name(id), phase: DeletePhase::ProbeFile }
}

impl DeleteNote {
    /// The request this deletion is waiting on.
    pub fn request(&self) -> (request: Request)
        ensures
            request@ == self@.pending(),
    {
        match self.phase {
            DeletePhase::ProbeFile => Request::FileExists { name: self.file_name.clone() },
            DeletePhase::Remove => Request::RemoveFile { name: self.file_name.clone() },
        }
    }

    /// Takes the answer to the pending request and goes on.
    pub fn resume(self, response: Response) -> (step: Step<DeleteNote, ()>)
        ensures
            step@ == self@.resume(response@),
    {
        let DeleteNote { file_name, phase } = self;
        match (phase, response) {
            (DeletePhase::ProbeFile, Response::Exists(false)) => Step::Done(Ok(())),
            (DeletePhase::ProbeFile, Response::Exists(true)) => Step::Next(
                DeleteNote { file_name, phase: DeletePhase::Remove },
            ),
            (DeletePhase::Remove, Response::Done(Ok(()))) => Step::Done(Ok(())),
            (DeletePhase::Remove, Response::Done(Err(message))) => Step::Done(Err(message)),
            (phase, _) => Step::Next(DeleteNote { file_name, phase }),
        }
    }
}

} // verus!
