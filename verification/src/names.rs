//! File names of the note store: where a note is kept, and which entries of
//! the notes directory count as notes.

use vstd::prelude::*;

verus! {

/// The name of the notes directory inside the application's data directory.
pub open spec fn notes_dir() -> Seq<char> {
    seq!['n', 'o', 't', 'e', 's']
}

/// The extension that marks a note file, without its dot.
pub open spec fn json() -> Seq<char> {
    seq!['j', 's', 'o', 'n']
}

/// The file name under which the note `id` is kept: the id, a dot, `json`.
pub open spec fn file_name_of(id: Seq<char>) -> Seq<char> {
    id + seq!['.'] + json()
}

/// The position of the last `.` in `name`, or -1 where it holds none.
pub open spec fn last_dot(name: Seq<char>) -> int
    decreases name.len(),
{
    if name.len() == 0 {
        -1
    } else if name.last() == '.' {
        name.len() - 1
    } else {
        last_dot(name.drop_last())
    }
}

/// The extension of a file name: what follows its last `.`. A name without a
/// `.`, or whose only `.` is its first character, has none.
pub open spec fn extension(name: Seq<char>) -> Option<Seq<char>> {
    let dot = last_dot(name);
    if dot <= 0 {
        None
    } else {
        Some(name.skip(dot + 1))
    }
}

/// Whether the extension of `name` is exactly `json`.
pub open spec fn is_json_name(name: Seq<char>) -> bool {
    extension(name) == Some(json())
}

/// `last_dot` points at a `.`, and no `.` follows it.
pub proof fn lemma_last_dot(name: Seq<char>)
    ensures
        -1 <= last_dot(name) < name.len(),
        last_dot(name) >= 0 ==> name[last_dot(name)] == '.',
        forall|i: int| last_dot(name) < i < name.len() ==> name[i] != '.',
    decreases name.len(),
{
    if name.len() > 0 && name.last() != '.' {
        let front = name.drop_last();
        lemma_last_dot(front);
        assert forall|i: int| last_dot(name) < i < name.len() implies name[i] != '.' by {
            if i < front.len() {
                assert(front[i] == name[i]);
            }
        }
    }
}

/// A position that holds a `.` with none after it is the last dot.
pub proof fn lemma_last_dot_is(name: Seq<char>, dot: int)
    requires
        0 <= dot < name.len(),
        name[dot] == '.',
        forall|i: int| dot < i < name.len() ==> name[i] != '.',
    ensures
        last_dot(name) == dot,
    decreases name.len(),
{
    if name.last() != '.' {
        lemma_last_dot_is(name.drop_last(), dot);
    }
}

/// A name has the extension `json` exactly when it is some non-empty stem
/// followed by `.json`.
pub proof fn lemma_json_name_is_suffix(name: Seq<char>)
    ensures
        is_json_name(name) <==> (name.len() > 5 && name.skip(name.len() - 5) == seq!['.'] + json()),
{
    let n = name.len() as int;
    let suffix = seq!['.'] + json();
    lemma_last_dot(name);
    if is_json_name(name) {
        let dot = last_dot(name);
        let ext = name.skip(dot + 1);
        assert(ext.len() == 4);
        assert(dot == n - 5);
        assert forall|i: int| 0 <= i < 5 implies name.skip(n - 5)[i] == suffix[i] by {
            if i > 0 {
                assert(name.skip(n - 5)[i] == ext[i - 1]);
            }
        }
        assert(name.skip(n - 5) =~= suffix);
    }
    if n > 5 && name.skip(n - 5) == suffix {
        let tail = name.skip(n - 5);
        assert(name[n - 5] == tail[0]);
        assert forall|i: int| n - 5 < i < n implies name[i] != '.' by {
            assert(name[i] == tail[i - (n - 5)]);
        }
        lemma_last_dot_is(name, n - 5);
        assert(name.skip(n - 4) =~= json()) by {
            assert forall|i: int| 0 <= i < 4 implies name.skip(n - 4)[i] == json()[i] by {
                assert(name.skip(n - 4)[i] == tail[i + 1]);
            }
        }
    }
}

/// The file name of a note has the extension `json`, unless the id is empty:
/// the file name is then `.json`, which has no extension.
pub proof fn lemma_note_file_name_is_json(id: Seq<char>)
    ensures
        is_json_name(file_name_of(id)) <==> id.len() > 0,
{
    let name = file_name_of(id);
    lemma_json_name_is_suffix(name);
    assert(name.skip(name.len() - 5) =~= seq!['.'] + json());
}

/// The name of the notes directory.
pub fn notes_dir_name() -> (name: &'static str)
    ensures
        name@ == notes_dir(),
{
    proof {
        reveal_strlit("notes");
    }
    let name = "notes";
    assert(name@ =~= notes_dir());
    name
}

/// The file name under which the note `id` is kept.
pub fn note_file_name(id: &str) -> (name: String)
    ensures
        name@ == file_name_of(id@),
{
    proof {
        reveal_strlit(".json");
    }
    let name = String::from_str(id).concat(".json");
    assert(name@ =~= file_name_of(id@));
    name
}

/// Whether the extension of `name` is exactly `json`: whether `name` is a
/// non-empty stem followed by `.json`.
pub fn has_json_extension(name: &str) -> (yes: bool)
    ensures
        yes == is_json_name(name@),
        yes == (name@.len() > 5 && name@.skip(name@.len() - 5) =~= seq!['.'] + json()),
{
    proof {
        lemma_json_name_is_suffix(name@);
        reveal_strlit(".json");
    }
    let suffix = ".json";
    let len: usize = name.unicode_len();
    if len <= 5 {
        return false;
    }
    let start: usize = len - 5;
    let mut k: usize = 0;
    while k < 5
        invariant
            k <= 5,
            len == name@.len(),
            start == len - 5,
            len > 5,
            suffix@ == seq!['.'] + json(),
            forall|i: int| 0 <= i < k ==> name@[start + i] == suffix@[i],
        decreases 5 - k,
    {
        if name.get_char(start + k) != suffix.get_char(k) {
            proof {
                lemma_json_name_is_suffix(name@);
                assert(name@.skip(len - 5)[k as int] == name@[start + k]);
            }
            return false;
        }
        k = k + 1;
    }
    assert(name@.skip(len - 5) =~= seq!['.'] + json());
    true
}

} // verus!
