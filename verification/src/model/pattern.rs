//! Patterns: reusable blocks of notes, one note list per generator.

use crate::model::note::Note;
use crate::model::time_signature::TimeSignature;
use crate::model::time_signature::TimeSignatureChange;
use crate::util::id::get_id;
use std::collections::HashMap;
use vstd::prelude::*;

verus! {

broadcast use vstd::std_specs::hash::group_hash_axioms;

/// The notes of one generator in one pattern, in the order in which they were
/// added.
#[derive(Debug, PartialEq, Eq)]
pub struct GeneratorNotes {
    pub notes: Vec<Note>,
}

impl View for GeneratorNotes {
    type V = Seq<Note>;

    open spec fn view(&self) -> Seq<Note> {
        self.notes@
    }
}

impl Default for GeneratorNotes {
    fn default() -> (r: Self)
        ensures
            r@ == Seq::<Note>::empty(),
    {
        GeneratorNotes { notes: Vec::new() }
    }
}

impl Clone for GeneratorNotes {
    fn clone(&self) -> (r: Self)
        ensures
            r@ == self@,
    {
        let mut notes: Vec<Note> = Vec::new();
        let mut i: usize = 0;
        while i < self.notes.len()
            invariant
                i <= self.notes.len(),
                notes@ == self.notes@.subrange(0, i as int),
            decreases self.notes.len() - i,
        {
            notes.push(self.notes[i]);
            assert(notes@ =~= self.notes@.subrange(0, i + 1));
            i = i + 1;
        }
        assert(notes@ =~= self.notes@);
        GeneratorNotes { notes }
    }
}

#[derive(Debug, PartialEq, Eq)]
pub struct Pattern {
    pub id: u64,
    pub name: String,
    pub generator_notes: HashMap<u64, GeneratorNotes>,
    pub time_signature_changes: Vec<TimeSignatureChange>,
    pub default_time_signature: TimeSignature,
}

/// What a pattern is to the contracts.
pub ghost struct PatternView {
    pub id: u64,
    pub name: Seq<char>,
    pub generator_notes: Map<u64, Seq<Note>>,
    pub time_signature_changes: Seq<TimeSignatureChange>,
    pub default_time_signature: TimeSignature,
}

/// The note lists of a pattern, each as the sequence of its notes.
pub open spec fn note_lists(lists: Map<u64, GeneratorNotes>) -> Map<u64, Seq<Note>> {
    lists.map_values(|list: GeneratorNotes| list@)
}

impl View for Pattern {
    type V = PatternView;

    open spec fn view(&self) -> PatternView {
        PatternView {
            id: self.id,
            name: self.name@,
            generator_notes: note_lists(self.generator_notes@),
            time_signature_changes: self.time_signature_changes@,
            default_time_signature: self.default_time_signature,
        }
    }
}

impl PatternView {
    /// The pattern with the given identifier and name that holds no note, in
    /// four-four time throughout.
    pub open spec fn empty(id: u64, name: Seq<char>) -> PatternView {
        PatternView {
            id,
            name,
            generator_notes: Map::empty(),
            time_signature_changes: Seq::empty(),
            default_time_signature: TimeSignature { numerator: 4, denominator: 4 },
        }
    }

    /// The notes of a generator: those of its list, or none where it has no
    /// list yet.
    pub open spec fn notes_of(self, generator_id: u64) -> Seq<Note> {
        if self.generator_notes.contains_key(generator_id) {
            self.generator_notes[generator_id]
        } else {
            Seq::empty()
        }
    }

    /// The pattern with the note list of a generator replaced, or created.
    pub open spec fn with_notes(self, generator_id: u64, notes: Seq<Note>) -> PatternView {
        PatternView { generator_notes: self.generator_notes.insert(generator_id, notes), ..self }
    }
}

/// Putting a note list into the map of a pattern puts its notes into the view
/// of that map.
pub proof fn lemma_note_lists_insert(
    lists: Map<u64, GeneratorNotes>,
    generator_id: u64,
    list: GeneratorNotes,
)
    ensures
        note_lists(lists.insert(generator_id, list)) == note_lists(lists).insert(generator_id, list@),
        note_lists(lists.remove(generator_id).insert(generator_id, list)) == note_lists(
            lists,
        ).insert(generator_id, list@),
{
    assert(note_lists(lists.insert(generator_id, list)) =~= note_lists(lists).insert(
        generator_id,
        list@,
    ));
    assert(lists.remove(generator_id).insert(generator_id, list) =~= lists.insert(
        generator_id,
        list,
    ));
}

impl Pattern {
    /// An empty pattern with the given identifier and name.
    pub fn with_id(id: u64, name: String) -> (r: Self)
        ensures
            r@ == PatternView::empty(id, name@),
    {
        let r = Pattern {
            id,
            name,
            generator_notes: HashMap::new(),
            default_time_signature: TimeSignature { numerator: 4, denominator: 4 },
            time_signature_changes: Vec::new(),
        };
        assert(r@.generator_notes =~= Map::<u64, Seq<Note>>::empty());
        r
    }

    /// An empty pattern with the given name and a new identifier; nothing
    /// where no identifier can be drawn.
    pub fn new(name: String) -> (r: Option<Self>)
        ensures
            r.is_some() ==> r.unwrap()@ == PatternView::empty(r.unwrap().id, name@),
    {
        match get_id() {
            Some(id) => Some(Pattern::with_id(id, name)),
            None => None,
        }
    }
}

impl Clone for Pattern {
    fn clone(&self) -> (r: Self)
        ensures
            r@ == self@,
    {
        let mut changes: Vec<TimeSignatureChange> = Vec::new();
        let mut i: usize = 0;
        while i < self.time_signature_changes.len()
            invariant
                i <= self.time_signature_changes.len(),
                changes@ == self.time_signature_changes@.subrange(0, i as int),
            decreases self.time_signature_changes.len() - i,
        {
            changes.push(self.time_signature_changes[i]);
            assert(changes@ =~= self.time_signature_changes@.subrange(0, i + 1));
            i = i + 1;
        }
        assert(changes@ =~= self.time_signature_changes@);
        Pattern {
            id: self.id,
            name: self.name.clone(),
            generator_notes: self.generator_notes.clone(),
            time_signature_changes: changes,
            default_time_signature: self.default_time_signature,
        }
    }
}

} // verus!
