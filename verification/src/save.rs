//! Saving a note: its content goes, verbatim, to the note's own file.

use vstd::prelude::*;
use crate::names::{file_name_of, note_file_name};
use crate::protocol::{Operation, Request, RequestView, Response, ResponseView, Step, StepView};

verus! {

/// Where a save stands: the request it is waiting on.
#[derive(Debug, Clone, Copy, PartialEq, Eq)]
pub enum SavePhase {
    /// Asking whether the notes directory exists.
    ProbeDir,
    /// Creating the notes directory, which was missing.
    CreateDir,
    /// Writing the note's file.
    Write,
}

/// A save in progress.
#[derive(Debug, PartialEq, Eq)]
pub struct SaveNote {
    file_name: String,
    content: String,
    phase: SavePhase,
}

/// The mathematical value of a [`SaveNote`]: the file to write, what to write
/// to it, and the phase.
pub struct SaveNoteView {
    pub file_name: Seq<char>,
    pub content: Seq<char>,
    pub phase: SavePhase,
}

impl View for SaveNote {
    type V = SaveNoteView;

    closed spec fn view(&self) -> SaveNoteView {
        SaveNoteView { file_name: self.file_name@, content: self.content@, phase: self.phase }
    }
}

impl SaveNoteView {
    /// A save of `content` under `id` that has asked nothing yet.
    pub open spec fn start(id: Seq<char>, content: Seq<char>) -> SaveNoteView {
        SaveNoteView { file_name: file_name_of(id), content, phase: SavePhase::ProbeDir }
    }

    /// The same save in another phase.
    pub open spec fn at(self, phase: SavePhase) -> SaveNoteView {
        SaveNoteView { file_name: self.file_name, content: self.content, phase }
    }
}

impl Operation for SaveNoteView {
    type Output = ();

    /// The request this state is waiting on.
    open spec fn pending(self) -> RequestView {
        match self.phase {
            SavePhase::ProbeDir => RequestView::DirExists,
            SavePhase::CreateDir => RequestView::CreateDir,
            SavePhase::Write => RequestView::WriteFile {
                name: self.file_name,
                content: self.content,
            },
        }
    }

    /// How the save goes on after `response`.
    ///
    /// A missing directory is created first; then the file is written, and
    /// the outcome of the write is the outcome of the save. A failure to
    /// create the directory ends the save with its message, before any
    /// write. A response that does not answer the pending request changes
    /// nothing.
    open spec fn resume(self, response: ResponseView) -> StepView<SaveNoteView, ()> {
        match (self.phase, response) {
            (SavePhase::ProbeDir, ResponseView::Exists(false)) => StepView::Next(
                self.at(SavePhase::CreateDir),
            ),
            (SavePhase::ProbeDir, ResponseView::Exists(true)) => StepView::Next(
                self.at(SavePhase::Write),
            ),
            (SavePhase::CreateDir, ResponseView::Done(Ok(()))) => StepView::Next(
                self.at(SavePhase::Write),
            ),
            (SavePhase::CreateDir, ResponseView::Done(Err(message))) => StepView::Done(
                Err(message),
            ),
            (SavePhase::Write, ResponseView::Done(outcome)) => StepView::Done(outcome),
            _ => StepView::Next(self),
        }
    }

    proof fn failure_is_final(self, response: ResponseView) {
    }

    proof fn stray_response_is_ignored(self, response: ResponseView) {
    }
}

/// Begins saving `content` as the note `id`.
pub fn save_note(id: &str, content: &str) -> (task: SaveNote)
    ensures
        task@ == SaveNoteView::start(id@, content@),
{
    SaveNote {
        file_name: note_file_name(id),
        content: String::from_str(content),
        phase: SavePhase::ProbeDir,
    }
}

impl SaveNote {
    /// The request this save is waiting on.
    pub fn request(&self) -> (request: Request)
        ensures
            request@ == self@.pending(),
    {
        match self.phase {
            SavePhase::ProbeDir => Request::DirExists,
            SavePhase::CreateDir => Request::CreateDir,
            SavePhase::Write => Request::WriteFile {
                name: self.file_name.clone(),
                content: self.content.clone(),
            },
        }
    }

    /// Takes the answer to the pending request and goes on.
    pub fn resume(self, response: Response) -> (step: Step<SaveNote, ()>)
        ensures
            step@ == self@.resume(response@),
    {
        let SaveNote { file_name, content, phase } = self;
        match (phase, response) {
            (SavePhase::ProbeDir, Response::Exists(false)) => Step::Next(
                SaveNote { file_name, content, phase: SavePhase::CreateDir },
            ),
            (SavePhase::ProbeDir, Response::Exists(true)) => Step::Next(
                SaveNote { file_name, content, phase: SavePhase::Write },
            ),
            (SavePhase::CreateDir, Response::Done(Ok(()))) => Step::Next(
                SaveNote { file_name, content, phase: SavePhase::Write },
            ),
            (SavePhase::CreateDir, Response::Done(Err(message))) => Step::Done(Err(message)),
            (SavePhase::Write, Response::Done(Ok(()))) => Step::Done(Ok(())),
            (SavePhase::Write, Response::Done(Err(message))) => Step::Done(Err(message)),
            (phase, _) => Step::Next(SaveNote { file_name, content, phase }),
        }
    }
}

} // verus!
