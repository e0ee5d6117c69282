//! Notes and the note list of one generator in one pattern.
//!
//! A note list keeps its notes in the order in which they were added; nothing
//! here sorts it by time.

use crate::util::id_list::lemma_filter_all;
use crate::util::id_list::lemma_filter_push;
use crate::util::id_list::lemma_position_is;
use crate::util::id_list::lemma_position_of;
use crate::util::id_list::position_of;
use vstd::prelude::*;

verus! {

#[derive(Clone, Copy, Debug, PartialEq, Eq, Structural)]
pub struct Note {
    pub id: u64,
    pub key: u8,
    pub length: u64,
    pub offset: u64,
    pub velocity: u8,
}

/// The predicate that holds of every note whose identifier is not `id`.
pub open spec fn note_id_is_not(id: u64) -> spec_fn(Note) -> bool {
    |note: Note| note.id != id
}

/// The identifiers of the notes of a list, in the order of the list.
pub open spec fn note_ids(notes: Seq<Note>) -> Seq<u64> {
    Seq::new(notes.len(), |i: int| notes[i].id)
}

/// The index of the first note of `notes` whose identifier is `id`, or the
/// length of `notes` if there is none.
pub open spec fn note_position(notes: Seq<Note>, id: u64) -> int {
    position_of(note_ids(notes), id)
}

/// Whether some note of `notes` has the identifier `id`.
pub open spec fn has_note(notes: Seq<Note>, id: u64) -> bool {
    note_position(notes, id) < notes.len()
}

/// `notes` without the notes whose identifier is `id`.
pub open spec fn without_note(notes: Seq<Note>, id: u64) -> Seq<Note> {
    notes.filter(note_id_is_not(id))
}

/// `notes` with the offset of the first note whose identifier is `id` set to
/// `offset`; `notes` itself if there is no such note.
pub open spec fn with_offset(notes: Seq<Note>, id: u64, offset: u64) -> Seq<Note> {
    let index = note_position(notes, id);
    if index < notes.len() {
        notes.update(index, Note { offset, ..notes[index] })
    } else {
        notes
    }
}

/// `notes` with the length of the first note whose identifier is `id` set to
/// `length`; `notes` itself if there is no such note.
pub open spec fn with_length(notes: Seq<Note>, id: u64, length: u64) -> Seq<Note> {
    let index = note_position(notes, id);
    if index < notes.len() {
        notes.update(index, Note { length, ..notes[index] })
    } else {
        notes
    }
}

/// Whether every note of `notes` has the identifier `id`.
pub open spec fn holds_only(notes: Seq<Note>, id: u64) -> bool {
    forall|i: int| 0 <= i < notes.len() ==> (#[trigger] notes[i]).id == id
}

/// Whether `note` stands at `index` of `notes` and no other note of `notes`
/// has its identifier.
pub open spec fn stands_alone_at(notes: Seq<Note>, index: int, note: Note) -> bool {
    &&& 0 <= index < notes.len()
    &&& notes[index] == note
    &&& forall|i: int| 0 <= i < notes.len() && i != index ==> (#[trigger] notes[i]).id != note.id
}

/// `has_note` says that an index holds a note with that identifier, and
/// `note_position` is the first such index.
pub proof fn lemma_note_position(notes: Seq<Note>, id: u64)
    ensures
        0 <= note_position(notes, id) <= notes.len(),
        has_note(notes, id) ==> notes[note_position(notes, id)].id == id,
        forall|i: int| 0 <= i < note_position(notes, id) ==> (#[trigger] notes[i]).id != id,
        has_note(notes, id) <==> exists|i: int| 0 <= i < notes.len() && (#[trigger] notes[i]).id == id,
{
    let ids = note_ids(notes);
    lemma_position_of(ids, id);
    let p = position_of(ids, id);
    assert forall|i: int| 0 <= i < p implies (#[trigger] notes[i]).id != id by {
        assert(ids[i] != id);
    }
    if p < notes.len() {
        assert(ids[p] == id);
        assert(notes[p].id == id);
    }
    if exists|i: int| 0 <= i < notes.len() && (#[trigger] notes[i]).id == id {
        let i = choose|i: int| 0 <= i < notes.len() && (#[trigger] notes[i]).id == id;
        assert(ids[i] == id);
        assert(ids.contains(id));
    }
}

/// Removes from `notes` every note whose identifier is `id` and keeps the
/// others in order.
pub fn remove_note_by_id(notes: &mut Vec<Note>, id: u64)
    ensures
        final(notes)@ == without_note(old(notes)@, id),
{
    let mut kept: Vec<Note> = Vec::new();
    let mut i: usize = 0;
    proof {
        reveal(Seq::filter);
        assert(notes@.subrange(0, 0) =~= Seq::<Note>::empty());
    }
    while i < notes.len()
        invariant
            i <= notes.len(),
            notes@ == old(notes)@,
            kept@ == without_note(notes@.subrange(0, i as int), id),
        decreases notes.len() - i,
    {
        proof {
            lemma_filter_push(notes@.subrange(0, i as int), notes@[i as int], note_id_is_not(id));
            assert(notes@.subrange(0, i as int).push(notes@[i as int]) =~= notes@.subrange(
                0,
                i + 1,
            ));
        }
        if notes[i].id != id {
            kept.push(notes[i]);
        }
        i = i + 1;
    }
    assert(notes@.subrange(0, i as int) =~= notes@);
    *notes = kept;
}

/// The index of the first note whose identifier is `id`, if there is one.
pub fn find_note(notes: &Vec<Note>, id: u64) -> (r: Option<usize>)
    ensures
        match r {
            Some(index) => index < notes.len() && index == note_position(notes@, id),
            None => !has_note(notes@, id),
        },
        r.is_some() <==> has_note(notes@, id),
{
    let mut i: usize = 0;
    while i < notes.len()
        invariant
            i <= notes.len(),
            forall|j: int| 0 <= j < i ==> (#[trigger] notes@[j]).id != id,
        decreases notes.len() - i,
    {
        if notes[i].id == id {
            proof {
                lemma_position_is(note_ids(notes@), id, i as int);
            }
            return Some(i);
        }
        i = i + 1;
    }
    proof {
        lemma_position_is(note_ids(notes@), id, i as int);
    }
    None
}

/// Putting a note back at the index it had, right after the notes of its
/// identifier were removed, gives the list back, where the note stood there
/// alone with its identifier.
pub proof fn lemma_without_then_insert_note(notes: Seq<Note>, index: int, note: Note)
    requires
        stands_alone_at(notes, index, note),
    ensures
        without_note(notes, note.id).len() == notes.len() - 1,
        without_note(notes, note.id).insert(index, note) == notes,
{
    let keep = note_id_is_not(note.id);
    let head = notes.subrange(0, index);
    let tail = notes.subrange(index + 1, notes.len() as int);
    assert(notes =~= head.push(note) + tail);
    Seq::filter_distributes_over_add(head.push(note), tail, keep);
    lemma_filter_push(head, note, keep);
    assert forall|i: int| 0 <= i < head.len() implies keep(#[trigger] head[i]) by {
        assert(notes[i].id != note.id);
    }
    assert forall|i: int| 0 <= i < tail.len() implies keep(#[trigger] tail[i]) by {
        assert(notes[index + 1 + i].id != note.id);
    }
    lemma_filter_all(head, keep);
    lemma_filter_all(tail, keep);
    assert((head + tail).insert(index, note) =~= notes);
}

/// Whether every note of `notes` has the identifier `id`.
pub fn holds_only_id(notes: &Vec<Note>, id: u64) -> (r: bool)
    ensures
        r == holds_only(notes@, id),
{
    let mut i: usize = 0;
    while i < notes.len()
        invariant
            i <= notes.len(),
            forall|j: int| 0 <= j < i ==> (#[trigger] notes@[j]).id == id,
        decreases notes.len() - i,
    {
        if notes[i].id != id {
            return false;
        }
        i = i + 1;
    }
    true
}

} // verus!
