//! Listing the notes: the text of every note file in the notes directory.

use vstd::prelude::*;
use crate::protocol::{Operation, Request, RequestView, Response, ResponseView, Step, StepView};

verus! {

/// Where a listing stands: the request it is waiting on.
#[derive(Debug, Clone, Copy, PartialEq, Eq)]
pub enum LoadPhase {
    /// Asking whether the notes directory exists.
    ProbeDir,
    /// Creating the notes directory, which was missing.
    CreateDir,
    /// Opening the notes directory for enumeration.
    OpenDir,
    /// Asking for the next entry.
    NextEntry,
    /// Reading the note file that was handed over last.
    ReadEntry,
}

/// A listing in progress.
#[derive(Debug, PartialEq, Eq)]
pub struct LoadNotes {
    notes: Vec<String>,
    phase: LoadPhase,
}

/// The mathematical value of a [`LoadNotes`]: the texts read so far, in the
/// order their files were handed over, and the phase.
pub struct LoadNotesView {
    pub notes: Seq<Seq<char>>,
    pub phase: LoadPhase,
}

impl View for LoadNotes {
    type V = LoadNotesView;

    closed spec fn view(&self) -> LoadNotesView {
        LoadNotesView { notes: self.notes.deep_view(), phase: self.phase }
    }
}

impl LoadNotesView {
    /// A listing that has asked nothing yet.
    pub open spec fn start() -> LoadNotesView {
        LoadNotesView { notes: Seq::empty(), phase: LoadPhase::ProbeDir }
    }

    /// The same listing in another phase.
    pub open spec fn at(self, phase: LoadPhase) -> LoadNotesView {
        LoadNotesView { notes: self.notes, phase }
    }
}

impl Operation for LoadNotesView {
    type Output = Seq<Seq<char>>;

    /// The request this state is waiting on.
    open spec fn pending(self) -> RequestView {
        match self.phase {
            LoadPhase::ProbeDir => RequestView::DirExists,
            LoadPhase::CreateDir => RequestView::CreateDir,
            LoadPhase::OpenDir => RequestView::OpenDir,
            LoadPhase::NextEntry => RequestView::NextEntry,
            LoadPhase::ReadEntry => RequestView::ReadEntry,
        }
    }

    /// How the listing goes on after `response`.
    ///
    /// A missing directory is created and the listing is empty. Otherwise the
    /// entries are taken one by one: a note is read and its text appended,
    /// anything else is passed over, and the end of the enumeration ends the
    /// listing with the texts collected. The first failure, of whatever
    /// request, ends the listing with its message and nothing else. A
    /// response that does not answer the pending request changes nothing.
    open spec fn resume(self, response: ResponseView) -> StepView<LoadNotesView, Seq<Seq<char>>> {
        match (self.phase, response) {
            (LoadPhase::ProbeDir, ResponseView::Exists(false)) => StepView::Next(
                self.at(LoadPhase::CreateDir),
            ),
            (LoadPhase::ProbeDir, ResponseView::Exists(true)) => StepView::Next(
                self.at(LoadPhase::OpenDir),
            ),
            (LoadPhase::CreateDir, ResponseView::Done(Ok(()))) => StepView::Done(Ok(Seq::empty())),
            (LoadPhase::CreateDir, ResponseView::Done(Err(message))) => StepView::Done(
                Err(message),
            ),
            (LoadPhase::OpenDir, ResponseView::Done(Ok(()))) => StepView::Next(
                self.at(LoadPhase::NextEntry),
            ),
            (LoadPhase::OpenDir, ResponseView::Done(Err(message))) => StepView::Done(Err(message)),
            (LoadPhase::NextEntry, ResponseView::Entry(None)) => StepView::Done(Ok(self.notes)),
            (LoadPhase::NextEntry, ResponseView::Entry(Some(Err(message)))) => StepView::Done(
                Err(message),
            ),
            (LoadPhase::NextEntry, ResponseView::Entry(Some(Ok(entry)))) => if entry.is_note() {
                StepView::Next(self.at(LoadPhase::ReadEntry))
            } else {
                StepView::Next(self)
            },
            (LoadPhase::ReadEntry, ResponseView::Text(Ok(text))) => StepView::Next(
                LoadNotesView { notes: self.notes.push(text), phase: LoadPhase::NextEntry },
            ),
            (LoadPhase::ReadEntry, ResponseView::Text(Err(message))) => StepView::Done(
                Err(message),
            ),
            _ => StepView::Next(self),
        }
    }

    proof fn failure_is_final(self, response: ResponseView) {
    }

    proof fn stray_response_is_ignored(self, response: ResponseView) {
    }
}

/// Begins listing the notes.
pub fn load_notes() -> (task: LoadNotes)
    ensures
        task@ == LoadNotesView::start(),
{
    let task = LoadNotes { notes: Vec::new(), phase: LoadPhase::ProbeDir };
    assert(task.notes.deep_view() =~= Seq::<Seq<char>>::empty());
    task
}

impl LoadNotes {
    /// The request this listing is waiting on.
    pub fn request(&self) -> (request: Request)
        ensures
            request@ == self@.pending(),
    {
        match self.phase {
            LoadPhase::ProbeDir => Request::DirExists,
            LoadPhase::CreateDir => Request::CreateDir,
            LoadPhase::OpenDir => Request::OpenDir,
            LoadPhase::NextEntry => Request::NextEntry,
            LoadPhase::ReadEntry => Request::ReadEntry,
        }
    }

    /// Takes the answer to the pending request and goes on.
    pub fn resume(self, response: Response) -> (step: Step<LoadNotes, Vec<String>>)
        ensures
            step@ == self@.resume(response@),
    {
        let LoadNotes { notes, phase } = self;
        match (phase, response) {
            (LoadPhase::ProbeDir, Response::Exists(false)) => Step::Next(
                LoadNotes { notes, phase: LoadPhase::CreateDir },
            ),
            (LoadPhase::ProbeDir, Response::Exists(true)) => Step::Next(
                LoadNotes { notes, phase: LoadPhase::OpenDir },
            ),
            (LoadPhase::CreateDir, Response::Done(Ok(()))) => {
                let none: Vec<String> = Vec::new();
                assert(none.deep_view() =~= Seq::<Seq<char>>::empty());
                Step::Done(Ok(none))
            },
            (LoadPhase::CreateDir, Response::Done(Err(message))) => Step::Done(Err(message)),
            (LoadPhase::OpenDir, Response::Done(Ok(()))) => Step::Next(
                LoadNotes { notes, phase: LoadPhase::NextEntry },
            ),
            (LoadPhase::OpenDir, Response::Done(Err(message))) => Step::Done(Err(message)),
            (LoadPhase::NextEntry, Response::Entry(None)) => Step::Done(Ok(notes)),
            (LoadPhase::NextEntry, Response::Entry(Some(Err(message)))) => Step::Done(
                Err(message),
            ),
            (LoadPhase::NextEntry, Response::Entry(Some(Ok(entry)))) => {
                if entry.is_note() {
                    Step::Next(LoadNotes { notes, phase: LoadPhase::ReadEntry })
                } else {
                    Step::Next(LoadNotes { notes, phase: LoadPhase::NextEntry })
                }
            },
            (LoadPhase::ReadEntry, Response::Text(Ok(text))) => {
                let mut notes = notes;
                let ghost before = notes.deep_view();
                notes.push(text);
                assert(notes.deep_view() =~= before.push(text@));
                Step::Next(LoadNotes { notes, phase: LoadPhase::NextEntry })
            },
            (LoadPhase::ReadEntry, Response::Text(Err(message))) => Step::Done(Err(message)),
            (phase, _) => Step::Next(LoadNotes { notes, phase }),
        }
    }
}

} // verus!
