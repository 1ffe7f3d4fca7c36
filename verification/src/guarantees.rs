//! What the operations do to a notes directory: theorems over the model.

use vstd::prelude::*;
use crate::load::{LoadNotesView, LoadPhase};
use crate::model::{
    delete_in, drive, load_in, notes_among, save_in, Directory, Enumeration, Node, Outcome, World,
};
use crate::names::{file_name_of, is_json_name, lemma_note_file_name_is_json};

verus! {

/// Saving succeeds wherever the note's file name is not taken by something
/// that is no regular file, and leaves an existing directory in which the
/// note's file holds exactly the content; every other entry is as it was.
/// Where the name is so taken, the save cannot succeed.
pub proof fn save_stores_the_note(dir: Directory, id: Seq<char>, content: Seq<char>)
    ensures
        dir.holds_other(file_name_of(id)) ==> save_in(dir, id, content) is None,
        !dir.holds_other(file_name_of(id)) ==> save_in(dir, id, content) == Some(
            Outcome { result: Ok(()), dir: dir.saved(id, content) },
        ),
{
    reveal_with_fuel(drive, 4);
}

/// Deleting a note whose file does not exist succeeds, and changes nothing.
pub proof fn delete_of_missing_note_succeeds(dir: Directory, id: Seq<char>)
    requires
        !dir.nodes.contains_key(file_name_of(id)),
    ensures
        delete_in(dir, id) == Some(Outcome { result: Ok(()), dir }),
{
    reveal_with_fuel(drive, 3);
}

/// Deleting a note whose file exists succeeds and removes that file alone.
/// Where the name is taken by something that is no regular file, the
/// deletion cannot succeed.
pub proof fn delete_removes_the_note(dir: Directory, id: Seq<char>)
    ensures
        dir.holds_file(file_name_of(id)) ==> delete_in(dir, id) == Some(
            Outcome { result: Ok(()), dir: dir.deleted(id) },
        ),
        dir.holds_other(file_name_of(id)) ==> delete_in(dir, id) is None,
{
    reveal_with_fuel(drive, 3);
}

/// An enumeration that stands before `unread`, with `notes` read so far, ends
/// with `notes` followed by the notes among `unread`, and leaves the
/// directory as it was.
proof fn lemma_enumeration_collects(
    dir: Directory,
    order: Seq<Seq<char>>,
    notes: Seq<Seq<char>>,
    unread: Seq<Seq<char>>,
    current: Option<Seq<char>>,
    steps: nat,
)
    requires
        steps >= 2 * unread.len() + 1,
    ensures
        drive(
            LoadNotesView { notes, phase: LoadPhase::NextEntry },
            World { dir, open: Some(Enumeration { unread, current }) },
            order,
            steps,
        ) matches Some((result, world)) && result == Ok::<Seq<Seq<char>>, Seq<char>>(
            notes + notes_among(dir, unread),
        ) && world.dir == dir,
    decreases unread.len(),
{
    reveal_with_fuel(drive, 3);
    if unread.len() == 0 {
        assert(notes + notes_among(dir, unread) =~= notes);
    } else {
        let name = unread.first();
        let rest = unread.drop_first();
        if dir.holds_note(name) {
            let text = dir.text(name);
            lemma_enumeration_collects(
                dir,
                order,
                notes.push(text),
                rest,
                Some(name),
                (steps - 2) as nat,
            );
            assert(notes.push(text) + notes_among(dir, rest) =~= notes + notes_among(dir, unread));
        } else {
            lemma_enumeration_collects(dir, order, notes, rest, Some(name), (steps - 1) as nat);
        }
    }
}

/// Listing a directory that does not exist yields nothing, and leaves the
/// directory created.
pub proof fn first_listing_creates_the_directory(dir: Directory, order: Seq<Seq<char>>)
    requires
        !dir.present,
    ensures
        load_in(dir, order) == Some(
            Outcome { result: Ok(Seq::<Seq<char>>::empty()), dir: dir.created() },
        ),
        dir.created().present,
{
    reveal_with_fuel(drive, 3);
}

/// Listing a directory that exists yields the texts of its notes, in the
/// order in which the entries are handed over, and changes nothing.
pub proof fn load_lists_the_notes(dir: Directory, order: Seq<Seq<char>>)
    requires
        dir.present,
    ensures
        dir.enumerated_by(order) ==> load_in(dir, order) == Some(
            Outcome { result: Ok(notes_among(dir, order)), dir },
        ),
        !dir.enumerated_by(order) ==> load_in(dir, order) is None,
{
    reveal_with_fuel(drive, 3);
    if dir.enumerated_by(order) {
        let empty = Seq::<Seq<char>>::empty();
        lemma_enumeration_collects(dir, order, empty, order, None, (2 * order.len() + 1) as nat);
        assert(empty + notes_among(dir, order) =~= notes_among(dir, order));
    }
}

/// The notes among two runs of names, one after the other, are those of the
/// first followed by those of the second.
proof fn lemma_notes_among_concat(dir: Directory, front: Seq<Seq<char>>, back: Seq<Seq<char>>)
    ensures
        notes_among(dir, front + back) == notes_among(dir, front) + notes_among(dir, back),
    decreases front.len(),
{
    if front.len() == 0 {
        assert(front + back =~= back);
        assert(notes_among(dir, front) + notes_among(dir, back) =~= notes_among(dir, back));
    } else {
        let rest = front.drop_first();
        lemma_notes_among_concat(dir, rest, back);
        assert((front + back).drop_first() =~= rest + back);
        assert((front + back).first() == front.first());
        if dir.holds_note(front.first()) {
            let text = seq![dir.text(front.first())];
            assert(text + (notes_among(dir, rest) + notes_among(dir, back)) =~= (text
                + notes_among(dir, rest)) + notes_among(dir, back));
        }
    }
}

/// Two directories that hold the same under each of `names` have the same
/// notes among them.
proof fn lemma_notes_among_same_nodes(first: Directory, second: Directory, names: Seq<Seq<char>>)
    requires
        forall|i: int|
            0 <= i < names.len() ==> first.nodes.contains_key(#[trigger] names[i])
                == second.nodes.contains_key(names[i]),
        forall|i: int|
            0 <= i < names.len() && first.nodes.contains_key(#[trigger] names[i])
                ==> first.nodes[names[i]] == second.nodes[names[i]],
    ensures
        notes_among(first, names) == notes_among(second, names),
    decreases names.len(),
{
    if names.len() > 0 {
        let rest = names.drop_first();
        assert forall|i: int| 0 <= i < rest.len() implies first.nodes.contains_key(
            #[trigger] rest[i],
        ) == second.nodes.contains_key(rest[i]) && (first.nodes.contains_key(rest[i])
            ==> first.nodes[rest[i]] == second.nodes[rest[i]]) by {
            assert(rest[i] == names[i + 1]);
        }
        lemma_notes_among_same_nodes(first, second, rest);
        assert(names.first() == names[0]);
    }
}

/// The notes among `names`, told apart around position `at`.
proof fn lemma_notes_among_around(dir: Directory, names: Seq<Seq<char>>, at: int)
    requires
        0 <= at < names.len(),
    ensures
        notes_among(dir, names) == notes_among(dir, names.take(at)) + notes_among(
            dir,
            seq![names[at]],
        ) + notes_among(dir, names.skip(at + 1)),
        notes_among(dir, names.remove(at)) == notes_among(dir, names.take(at)) + notes_among(
            dir,
            names.skip(at + 1),
        ),
{
    let front = names.take(at);
    let one = seq![names[at]];
    let back = names.skip(at + 1);
    assert(names =~= front + one + back);
    assert(names.remove(at) =~= front + back);
    lemma_notes_among_concat(dir, front + one, back);
    lemma_notes_among_concat(dir, front, one);
    lemma_notes_among_concat(dir, front, back);
}

/// What one name contributes: its text where it is a note, else nothing.
proof fn lemma_notes_among_one(dir: Directory, name: Seq<char>)
    ensures
        notes_among(dir, seq![name]) == if dir.holds_note(name) {
            seq![dir.text(name)]
        } else {
            Seq::empty()
        },
{
    reveal_with_fuel(notes_among, 2);
    let one = seq![name];
    assert(one.drop_first() =~= Seq::<Seq<char>>::empty());
    assert(one.first() == name);
    assert(seq![dir.text(name)] + Seq::<Seq<char>>::empty() =~= seq![dir.text(name)]);
}

/// Saving the same id twice leaves one file for it, which holds the second
/// content: the directory is the one that the second save alone would have
/// left, and the second save adds no name to what the first one left.
pub proof fn second_save_replaces_first(
    dir: Directory,
    id: Seq<char>,
    first: Seq<char>,
    second: Seq<char>,
)
    requires
        !dir.holds_other(file_name_of(id)),
    ensures
        save_in(dir, id, first) == Some(Outcome { result: Ok(()), dir: dir.saved(id, first) }),
        save_in(dir.saved(id, first), id, second) == Some(
            Outcome { result: Ok(()), dir: dir.saved(id, second) },
        ),
        dir.saved(id, second).nodes.dom() == dir.saved(id, first).nodes.dom(),
        dir.saved(id, second).nodes[file_name_of(id)] == Node::File(second),
{
    save_stores_the_note(dir, id, first);
    save_stores_the_note(dir, id, second);
    let once = dir.saved(id, first);
    save_stores_the_note(once, id, second);
    assert(once.saved(id, second).nodes =~= dir.saved(id, second).nodes);
    assert(dir.saved(id, second).nodes.dom() =~= once.nodes.dom());
}

/// A saved note is listed: after `content` was saved under a non-empty
/// `id`, a listing yields `content` at the place where the note's file is
/// handed over, among the notes that the directory held before under the
/// other names. In a directory that held nothing before, the listing is
/// exactly `content`.
pub proof fn saved_note_is_listed(
    dir: Directory,
    id: Seq<char>,
    content: Seq<char>,
    order: Seq<Seq<char>>,
)
    requires
        !dir.holds_other(file_name_of(id)),
        id.len() > 0,
        dir.saved(id, content).enumerated_by(order),
    ensures
        save_in(dir, id, content) == Some(Outcome { result: Ok(()), dir: dir.saved(id, content) }),
        0 <= order.index_of(file_name_of(id)) < order.len(),
        load_in(dir.saved(id, content), order) == Some(
            Outcome {
                result: Ok(
                    notes_among(dir, order.take(order.index_of(file_name_of(id)))) + seq![content]
                        + notes_among(dir, order.skip(order.index_of(file_name_of(id)) + 1)),
                ),
                dir: dir.saved(id, content),
            },
        ),
        dir.nodes.dom() =~= Set::empty() ==> load_in(dir.saved(id, content), order) == Some(
            Outcome { result: Ok(seq![content]), dir: dir.saved(id, content) },
        ),
{
    let name = file_name_of(id);
    let saved = dir.saved(id, content);
    save_stores_the_note(dir, id, content);
    load_lists_the_notes(saved, order);
    assert(saved.nodes.contains_key(name));
    assert(order.contains(name));
    let at = order.index_of(name);
    assert(0 <= at < order.len() && order[at] == name);
    let front = order.take(at);
    let back = order.skip(at + 1);
    lemma_notes_among_around(saved, order, at);
    lemma_notes_among_one(saved, name);
    lemma_note_file_name_is_json(id);
    assert(saved.holds_note(name));
    assert(saved.text(name) == content);
    assert forall|i: int| 0 <= i < front.len() implies front[i] != name by {
        assert(front[i] == order[i]);
    }
    assert forall|i: int| 0 <= i < back.len() implies back[i] != name by {
        assert(back[i] == order[i + at + 1]);
    }
    lemma_notes_among_same_nodes(saved, dir, front);
    lemma_notes_among_same_nodes(saved, dir, back);
    if dir.nodes.dom() =~= Set::empty() {
        if front.len() > 0 {
            assert(order.contains(front[0]));
            assert(saved.nodes.contains_key(front[0]));
        }
        if back.len() > 0 {
            assert(order.contains(back[0]));
            assert(saved.nodes.contains_key(back[0]));
        }
        assert(notes_among(dir, front) =~= Seq::<Seq<char>>::empty());
        assert(notes_among(dir, back) =~= Seq::<Seq<char>>::empty());
        assert(notes_among(dir, front) + seq![content] + notes_among(dir, back) =~= seq![content]);
    }
}

/// A deleted note is not listed: once the note's file is removed, the
/// directory enumerates the other names only, and a listing yields exactly
/// the notes that the directory held before under those.
pub proof fn deleted_note_is_not_listed(dir: Directory, id: Seq<char>, order: Seq<Seq<char>>)
    requires
        dir.wf(),
        dir.holds_file(file_name_of(id)),
        dir.deleted(id).enumerated_by(order),
    ensures
        delete_in(dir, id) == Some(Outcome { result: Ok(()), dir: dir.deleted(id) }),
        !dir.deleted(id).nodes.contains_key(file_name_of(id)),
        !order.contains(file_name_of(id)),
        load_in(dir.deleted(id), order) == Some(
            Outcome { result: Ok(notes_among(dir, order)), dir: dir.deleted(id) },
        ),
{
    let name = file_name_of(id);
    let deleted = dir.deleted(id);
    delete_removes_the_note(dir, id);
    assert(dir.nodes.contains_key(name));
    assert(dir.present);
    load_lists_the_notes(deleted, order);
    assert forall|i: int| 0 <= i < order.len() implies #[trigger] order[i] != name by {
        assert(order.contains(order[i]));
    }
    lemma_notes_among_same_nodes(deleted, dir, order);
}

/// An entry that is no note is not listed: where something that is not a
/// regular file, or whose extension is not `json`, is put into the
/// directory, a listing yields what it would yield without that entry.
pub proof fn foreign_entry_is_not_listed(
    dir: Directory,
    name: Seq<char>,
    node: Node,
    order: Seq<Seq<char>>,
)
    requires
        dir.present,
        !dir.nodes.contains_key(name),
        node is Other || !is_json_name(name),
        dir.with_node(name, node).enumerated_by(order),
    ensures
        dir.enumerated_by(order.remove(order.index_of(name))),
        load_in(dir, order.remove(order.index_of(name))) == Some(
            Outcome { result: Ok(notes_among(dir, order.remove(order.index_of(name)))), dir },
        ),
        load_in(dir.with_node(name, node), order) == Some(
            Outcome {
                result: Ok(notes_among(dir, order.remove(order.index_of(name)))),
                dir: dir.with_node(name, node),
            },
        ),
{
    let with_entry = dir.with_node(name, node);
    assert(with_entry.nodes.contains_key(name));
    assert(order.contains(name));
    let at = order.index_of(name);
    assert(0 <= at < order.len() && order[at] == name);
    let others = order.remove(at);
    assert forall|i: int| 0 <= i < others.len() implies #[trigger] others[i] != name
        && order.contains(others[i]) by {
        if i < at {
            assert(others[i] == order[i]);
        } else {
            assert(others[i] == order[i + 1]);
        }
    }
    assert(others.no_duplicates()) by {
        assert forall|i: int, j: int| 0 <= i < others.len() && 0 <= j < others.len() && i != j
            implies others[i] != others[j] by {
            let oi = if i < at { i } else { i + 1 };
            let oj = if j < at { j } else { j + 1 };
            assert(others[i] == order[oi]);
            assert(others[j] == order[oj]);
        }
    }
    assert forall|other: Seq<char>| others.contains(other) <==> dir.nodes.contains_key(
        other,
    ) by {
        if others.contains(other) {
            let i = choose|i: int| 0 <= i < others.len() && others[i] == other;
            assert(order.contains(others[i]));
            assert(with_entry.nodes.contains_key(other));
        }
        if dir.nodes.contains_key(other) {
            assert(with_entry.nodes.contains_key(other));
            assert(order.contains(other));
            let i = choose|i: int| 0 <= i < order.len() && order[i] == other;
            assert(i != at);
            if i < at {
                assert(others[i] == other);
            } else {
                assert(others[i - 1] == other);
            }
        }
    }
    load_lists_the_notes(dir, others);
    load_lists_the_notes(with_entry, order);
    lemma_notes_among_around(with_entry, order, at);
    lemma_notes_among_one(with_entry, name);
    assert(!with_entry.holds_note(name));
    assert(notes_among(with_entry, order) =~= notes_among(with_entry, others));
    lemma_notes_among_same_nodes(with_entry, dir, others);
}

} // verus!
