//! An ideal notes directory, and the operations run against it.
//!
//! The model answers every request that a directory can answer with success
//! and has no answer where a real one would fail. Running an operation
//! against it therefore tells two things: that the operation asks only for
//! what can be done, in an order in which it can be done, and what the
//! directory holds once the operation has ended.

use vstd::prelude::*;
use crate::delete::DeleteNoteView;
use crate::load::LoadNotesView;
use crate::names::file_name_of;
use crate::protocol::{DirEntryView, Operation, RequestView, ResponseView, StepView};
use crate::save::SaveNoteView;

verus! {

/// What a name in the notes directory stands for.
pub enum Node {
    /// A regular file, with its text.
    File(Seq<char>),
    /// Anything else: a subdirectory, for one.
    Other,
}

/// The notes directory: whether it exists, and what it holds under each name.
pub struct Directory {
    pub present: bool,
    pub nodes: Map<Seq<char>, Node>,
}

impl Directory {
    /// A directory that does not exist holds nothing.
    pub open spec fn wf(self) -> bool {
        !self.present ==> self.nodes.dom() =~= Set::empty()
    }

    /// Whether `name` is a regular file of the directory.
    pub open spec fn holds_file(self, name: Seq<char>) -> bool {
        self.nodes.contains_key(name) && self.nodes[name] is File
    }

    /// Whether `name` is taken by something that is no regular file.
    pub open spec fn holds_other(self, name: Seq<char>) -> bool {
        self.nodes.contains_key(name) && self.nodes[name] is Other
    }

    /// The text of the regular file `name`.
    pub open spec fn text(self, name: Seq<char>) -> Seq<char>
        recommends
            self.holds_file(name),
    {
        self.nodes[name]->File_0
    }

    /// What an enumeration shows of `name`.
    pub open spec fn entry(self, name: Seq<char>) -> DirEntryView {
        DirEntryView { name, is_file: self.holds_file(name) }
    }

    /// Whether `name` is a note of the directory.
    pub open spec fn holds_note(self, name: Seq<char>) -> bool {
        self.entry(name).is_note()
    }

    /// The directory once it has been created.
    pub open spec fn created(self) -> Directory {
        Directory { present: true, nodes: self.nodes }
    }

    /// The directory with `node` under `name`.
    pub open spec fn with_node(self, name: Seq<char>, node: Node) -> Directory {
        Directory { present: self.present, nodes: self.nodes.insert(name, node) }
    }

    /// The directory with a regular file of this `text` under `name`.
    pub open spec fn with_file(self, name: Seq<char>, text: Seq<char>) -> Directory {
        self.with_node(name, Node::File(text))
    }

    /// The directory with nothing under `name`.
    pub open spec fn without(self, name: Seq<char>) -> Directory {
        Directory { present: self.present, nodes: self.nodes.remove(name) }
    }

    /// The directory that a successful save of `content` as the note `id`
    /// leaves: it exists, and the note's file holds `content`.
    pub open spec fn saved(self, id: Seq<char>, content: Seq<char>) -> Directory {
        self.created().with_file(file_name_of(id), content)
    }

    /// The directory that a successful deletion of the note `id` leaves:
    /// nothing is under the name of the note's file.
    pub open spec fn deleted(self, id: Seq<char>) -> Directory {
        self.without(file_name_of(id))
    }

    /// Whether `order` names every entry of the directory, each once. Such
    /// is the order in which an enumeration hands the entries over; nothing
    /// else is known of it.
    pub open spec fn enumerated_by(self, order: Seq<Seq<char>>) -> bool {
        &&& order.no_duplicates()
        &&& forall|name: Seq<char>| order.contains(name) <==> self.nodes.contains_key(name)
    }
}

/// An enumeration under way: the names still to hand over, and the one
/// handed over last.
pub struct Enumeration {
    pub unread: Seq<Seq<char>>,
    pub current: Option<Seq<char>>,
}

/// The directory together with the enumeration that is open on it, if any.
pub struct World {
    pub dir: Directory,
    pub open: Option<Enumeration>,
}

impl World {
    /// The same world around another directory.
    pub open spec fn with_dir(self, dir: Directory) -> World {
        World { dir, open: self.open }
    }

    /// The same directory under another enumeration.
    pub open spec fn with_open(self, unread: Seq<Seq<char>>, current: Option<Seq<char>>) -> World {
        World { dir: self.dir, open: Some(Enumeration { unread, current }) }
    }
}

/// The successful answer of the world to `request`, and the world after it;
/// `None` where a directory in this state could only fail. An enumeration
/// that is opened hands the entries over in `order`.
///
/// A file can be written only in an existing directory and not over
/// something that is no regular file; only a regular file can be removed or
/// read; entries are had only from an open enumeration.
pub open spec fn respond(world: World, order: Seq<Seq<char>>, request: RequestView) -> Option<
    (ResponseView, World),
> {
    let dir = world.dir;
    match request {
        RequestView::DirExists => Some((ResponseView::Exists(dir.present), world)),
        RequestView::CreateDir => Some((ResponseView::Done(Ok(())), world.with_dir(dir.created()))),
        RequestView::WriteFile { name, content } => if dir.present && !dir.holds_other(name) {
            Some((ResponseView::Done(Ok(())), world.with_dir(dir.with_file(name, content))))
        } else {
            None
        },
        RequestView::OpenDir => if dir.present && dir.enumerated_by(order) {
            Some((ResponseView::Done(Ok(())), world.with_open(order, None)))
        } else {
            None
        },
        RequestView::NextEntry => match world.open {
            Some(enumeration) => if enumeration.unread.len() == 0 {
                Some((ResponseView::Entry(None), world))
            } else {
                let name = enumeration.unread.first();
                Some(
                    (
                        ResponseView::Entry(Some(Ok(dir.entry(name)))),
                        world.with_open(enumeration.unread.drop_first(), Some(name)),
                    ),
                )
            },
            None => None,
        },
        RequestView::ReadEntry => match world.open {
            Some(Enumeration { current: Some(name), .. }) => if dir.holds_file(name) {
                Some((ResponseView::Text(Ok(dir.text(name))), world))
            } else {
                None
            },
            _ => None,
        },
        RequestView::FileExists { name } => Some(
            (ResponseView::Exists(dir.nodes.contains_key(name)), world),
        ),
        RequestView::RemoveFile { name } => if dir.holds_file(name) {
            Some((ResponseView::Done(Ok(())), world.with_dir(dir.without(name))))
        } else {
            None
        },
    }
}

/// Runs `state` against `world` for at most `steps` requests: the result of
/// the operation and the world it leaves. `None` where the world has no
/// answer to a request, or the operation has not ended within `steps`.
pub open spec fn drive<S: Operation>(
    state: S,
    world: World,
    order: Seq<Seq<char>>,
    steps: nat,
) -> Option<(Result<S::Output, Seq<char>>, World)>
    decreases steps,
{
    if steps == 0 {
        None
    } else {
        match respond(world, order, state.pending()) {
            None => None,
            Some((response, after)) => match state.resume(response) {
                StepView::Done(result) => Some((result, after)),
                StepView::Next(next) => drive(next, after, order, (steps - 1) as nat),
            },
        }
    }
}

/// How an operation ended, and the directory it left.
pub struct Outcome<T> {
    pub result: Result<T, Seq<char>>,
    pub dir: Directory,
}

/// Runs an operation from `state` on `dir`, with no enumeration open.
pub open spec fn run<S: Operation>(
    state: S,
    dir: Directory,
    order: Seq<Seq<char>>,
    steps: nat,
) -> Option<Outcome<S::Output>> {
    match drive(state, World { dir, open: None }, order, steps) {
        Some((result, world)) => Some(Outcome { result, dir: world.dir }),
        None => None,
    }
}

/// Saving `content` as the note `id` in `dir`. A save asks three requests at
/// most.
pub open spec fn save_in(dir: Directory, id: Seq<char>, content: Seq<char>) -> Option<Outcome<()>> {
    run(SaveNoteView::start(id, content), dir, Seq::empty(), 3)
}

/// Deleting the note `id` from `dir`. A deletion asks two requests at most.
pub open spec fn delete_in(dir: Directory, id: Seq<char>) -> Option<Outcome<()>> {
    run(DeleteNoteView::start(id), dir, Seq::empty(), 2)
}

/// Listing the notes of `dir`, whose entries an enumeration hands over in
/// `order`. A listing asks two requests for each entry at most, and three
/// more.
pub open spec fn load_in(dir: Directory, order: Seq<Seq<char>>) -> Option<
    Outcome<Seq<Seq<char>>>,
> {
    run(LoadNotesView::start(), dir, order, 2 * order.len() + 3)
}

/// The texts of the notes among `names`, in the order of `names`.
pub open spec fn notes_among(dir: Directory, names: Seq<Seq<char>>) -> Seq<Seq<char>>
    decreases names.len(),
{
    if names.len() == 0 {
        Seq::empty()
    } else {
        let rest = notes_among(dir, names.drop_first());
        if dir.holds_note(names.first()) {
            seq![dir.text(names.first())] + rest
        } else {
            rest
        }
    }
}

} // verus!
