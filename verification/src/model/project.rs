//! A project: one open document, with its song and its generators.

use crate::model::generator::Controller;
use crate::model::generator::GeneratorView;
use crate::model::generator::Instrument;
use crate::model::note::find_note;
use crate::model::note::has_note;
use crate::model::note::holds_only;
use crate::model::note::holds_only_id;
use crate::model::note::note_position;
use crate::model::note::with_length;
use crate::model::note::with_offset;
use crate::model::note::without_note;
use crate::model::note::Note;
use crate::model::pattern::PatternView;
use crate::model::song::Song;
use crate::model::song::SongView;
use crate::util::id::get_id;
use crate::util::id_list::has_no_duplicates;
use crate::util::id_list::lemma_list_covers_keys;
use crate::util::id_list::lemma_listed_keys_len;
use crate::util::id_list::without_id;
use std::collections::HashMap;
use vstd::prelude::*;

verus! {

broadcast use vstd::std_specs::hash::group_hash_axioms;

#[derive(Debug, PartialEq, Eq)]
pub struct Project {
    pub id: u64,
    /// Whether the project is as its file holds it. Not part of the file.
    pub is_saved: bool,
    /// Where the project was loaded from, or empty. Not part of the file.
    pub file_path: String,
    pub song: Song,
    pub instruments: HashMap<u64, Instrument>,
    pub controllers: HashMap<u64, Controller>,
    /// The instruments and controllers in display order.
    pub generator_list: Vec<u64>,
}

/// What a project is to the contracts.
pub ghost struct ProjectView {
    pub id: u64,
    pub is_saved: bool,
    pub file_path: Seq<char>,
    pub song: SongView,
    pub instruments: Map<u64, GeneratorView>,
    pub controllers: Map<u64, GeneratorView>,
    pub generator_list: Seq<u64>,
}

/// The instruments of a project, each as its view.
pub open spec fn instrument_views(instruments: Map<u64, Instrument>) -> Map<u64, GeneratorView> {
    instruments.map_values(|instrument: Instrument| instrument@)
}

/// The controllers of a project, each as its view.
pub open spec fn controller_views(controllers: Map<u64, Controller>) -> Map<u64, GeneratorView> {
    controllers.map_values(|controller: Controller| controller@)
}

impl View for Project {
    type V = ProjectView;

    open spec fn view(&self) -> ProjectView {
        ProjectView {
            id: self.id,
            is_saved: self.is_saved,
            file_path: self.file_path@,
            song: self.song@,
            instruments: instrument_views(self.instruments@),
            controllers: controller_views(self.controllers@),
            generator_list: self.generator_list@,
        }
    }
}

impl ProjectView {
    /// The unsaved project with the given identifiers that holds no pattern
    /// and no generator.
    pub open spec fn empty(id: u64, song_id: u64) -> ProjectView {
        ProjectView {
            id,
            is_saved: false,
            file_path: Seq::empty(),
            song: SongView::empty(song_id),
            instruments: Map::empty(),
            controllers: Map::empty(),
            generator_list: Seq::empty(),
        }
    }

    /// The song is well formed; the generator list names each instrument and
    /// each controller once and nothing else; no identifier is both an
    /// instrument and a controller; each generator is filed under its own
    /// identifier.
    pub open spec fn wf(self) -> bool {
        &&& self.song.wf()
        &&& self.generator_list.no_duplicates()
        &&& forall|id: u64|
            #![trigger self.generator_list.contains(id)]
            #![trigger self.instruments.contains_key(id)]
            #![trigger self.controllers.contains_key(id)]
            self.generator_list.contains(id) <==> (self.instruments.contains_key(id)
                || self.controllers.contains_key(id))
        &&& forall|id: u64|
            #![trigger self.instruments.contains_key(id)]
            #![trigger self.controllers.contains_key(id)]
            !(self.instruments.contains_key(id) && self.controllers.contains_key(id))
        &&& forall|id: u64| #[trigger]
            self.instruments.contains_key(id) ==> self.instruments[id].id == id
        &&& forall|id: u64| #[trigger]
            self.controllers.contains_key(id) ==> self.controllers[id].id == id
    }

    /// No identifier in the project is 0, which stands for nothing: neither
    /// that of the project or of its song, nor that of a pattern, an
    /// instrument or a controller.
    pub open spec fn has_no_zero_id(self) -> bool {
        &&& self.id != 0
        &&& self.song.id != 0
        &&& !self.song.patterns.contains_key(0)
        &&& !self.instruments.contains_key(0)
        &&& !self.controllers.contains_key(0)
    }

    /// Whether the project is `other` but for the two fields that no file holds.
    pub open spec fn same_document(self, other: ProjectView) -> bool {
        &&& self.id == other.id
        &&& self.song == other.song
        &&& self.instruments == other.instruments
        &&& self.controllers == other.controllers
        &&& self.generator_list == other.generator_list
    }

    pub open spec fn has_pattern(self, pattern_id: u64) -> bool {
        self.song.patterns.contains_key(pattern_id)
    }

    /// Whether the pattern exists and holds a note list for the generator.
    pub open spec fn has_note_list(self, pattern_id: u64, generator_id: u64) -> bool {
        &&& self.has_pattern(pattern_id)
        &&& self.song.patterns[pattern_id].generator_notes.contains_key(generator_id)
    }

    /// The notes of a generator in a pattern; none where it has no list yet.
    pub open spec fn notes(self, pattern_id: u64, generator_id: u64) -> Seq<Note> {
        self.song.patterns[pattern_id].notes_of(generator_id)
    }

    pub open spec fn has_generator(self, id: u64) -> bool {
        self.instruments.contains_key(id) || self.controllers.contains_key(id)
    }

    /// The project with the note list of a generator in a pattern replaced, or
    /// created.
    pub open spec fn with_notes(
        self,
        pattern_id: u64,
        generator_id: u64,
        notes: Seq<Note>,
    ) -> ProjectView {
        ProjectView {
            song: SongView {
                patterns: self.song.patterns.insert(
                    pattern_id,
                    self.song.patterns[pattern_id].with_notes(generator_id, notes),
                ),
                ..self.song
            },
            ..self
        }
    }

    /// The project with the note list of the generator taken out of the
    /// pattern, notes and all.
    pub open spec fn without_note_list(self, pattern_id: u64, generator_id: u64) -> ProjectView {
        let pattern = self.song.patterns[pattern_id];
        ProjectView {
            song: SongView {
                patterns: self.song.patterns.insert(
                    pattern_id,
                    PatternView {
                        generator_notes: pattern.generator_notes.remove(generator_id),
                        ..pattern
                    },
                ),
                ..self.song
            },
            ..self
        }
    }

    /// The project with the note put at `index` of the generator's list in
    /// the pattern, the list being created where there was none.
    pub open spec fn insert_note(
        self,
        pattern_id: u64,
        generator_id: u64,
        index: int,
        note: Note,
    ) -> ProjectView {
        self.with_notes(
            pattern_id,
            generator_id,
            self.notes(pattern_id, generator_id).insert(index, note),
        )
    }

    /// The project with the pattern put at `index` of the display order and
    /// filed under its identifier.
    pub open spec fn add_pattern(self, pattern: PatternView, index: int) -> ProjectView {
        ProjectView {
            song: SongView {
                pattern_order: self.song.pattern_order.insert(index, pattern.id),
                patterns: self.song.patterns.insert(pattern.id, pattern),
                ..self.song
            },
            ..self
        }
    }

    /// The project without the pattern: not in the display order, not on file.
    pub open spec fn delete_pattern(self, pattern_id: u64) -> ProjectView {
        ProjectView {
            song: SongView {
                pattern_order: without_id(self.song.pattern_order, pattern_id),
                patterns: self.song.patterns.remove(pattern_id),
                ..self.song
            },
            ..self
        }
    }

    /// The project with the note added at the end of the generator's list in
    /// the pattern, the list being created where there was none.
    pub open spec fn add_note(self, pattern_id: u64, generator_id: u64, note: Note) -> ProjectView {
        self.with_notes(pattern_id, generator_id, self.notes(pattern_id, generator_id).push(note))
    }

    /// The project without the notes of that identifier in the generator's
    /// list.
    pub open spec fn remove_note(
        self,
        pattern_id: u64,
        generator_id: u64,
        note_id: u64,
    ) -> ProjectView {
        self.with_notes(
            pattern_id,
            generator_id,
            without_note(self.notes(pattern_id, generator_id), note_id),
        )
    }

    /// The project with the first note of that identifier in the generator's
    /// list moved to `offset`.
    pub open spec fn move_note(
        self,
        pattern_id: u64,
        generator_id: u64,
        note_id: u64,
        offset: u64,
    ) -> ProjectView {
        self.with_notes(
            pattern_id,
            generator_id,
            with_offset(self.notes(pattern_id, generator_id), note_id, offset),
        )
    }

    /// The project with the first note of that identifier in the generator's
    /// list given the length `length`.
    pub open spec fn resize_note(
        self,
        pattern_id: u64,
        generator_id: u64,
        note_id: u64,
        length: u64,
    ) -> ProjectView {
        self.with_notes(
            pattern_id,
            generator_id,
            with_length(self.notes(pattern_id, generator_id), note_id, length),
        )
    }

    /// The project with a new instrument at the end of the generator list.
    pub open spec fn add_instrument(self, id: u64, name: Seq<char>) -> ProjectView {
        ProjectView {
            generator_list: self.generator_list.push(id),
            instruments: self.instruments.insert(id, GeneratorView { id, name }),
            ..self
        }
    }

    /// The project with a new controller at the end of the generator list.
    pub open spec fn add_controller(self, id: u64, name: Seq<char>) -> ProjectView {
        ProjectView {
            generator_list: self.generator_list.push(id),
            controllers: self.controllers.insert(id, GeneratorView { id, name }),
            ..self
        }
    }

    /// The project without the generator: not in the generator list, neither
    /// an instrument nor a controller.
    pub open spec fn remove_generator(self, id: u64) -> ProjectView {
        ProjectView {
            generator_list: without_id(self.generator_list, id),
            instruments: self.instruments.remove(id),
            controllers: self.controllers.remove(id),
            ..self
        }
    }
}

/// Putting an instrument into the map of a project puts its view into the view
/// of that map, and taking one out takes its view out.
pub proof fn lemma_instrument_views_update(
    instruments: Map<u64, Instrument>,
    id: u64,
    instrument: Instrument,
)
    ensures
        instrument_views(instruments.insert(id, instrument)) == instrument_views(
            instruments,
        ).insert(id, instrument@),
        instrument_views(instruments.remove(id)) == instrument_views(instruments).remove(id),
{
    assert(instrument_views(instruments.insert(id, instrument)) =~= instrument_views(
        instruments,
    ).insert(id, instrument@));
    assert(instrument_views(instruments.remove(id)) =~= instrument_views(instruments).remove(id));
}

/// Putting a controller into the map of a project puts its view into the view
/// of that map, and taking one out takes its view out.
pub proof fn lemma_controller_views_update(
    controllers: Map<u64, Controller>,
    id: u64,
    controller: Controller,
)
    ensures
        controller_views(controllers.insert(id, controller)) == controller_views(
            controllers,
        ).insert(id, controller@),
        controller_views(controllers.remove(id)) == controller_views(controllers).remove(id),
{
    assert(controller_views(controllers.insert(id, controller)) =~= controller_views(
        controllers,
    ).insert(id, controller@));
    assert(controller_views(controllers.remove(id)) =~= controller_views(controllers).remove(id));
}

impl Project {
    /// An empty, unsaved project with the given identifiers.
    pub fn with_ids(id: u64, song_id: u64) -> (r: Self)
        ensures
            r@ == ProjectView::empty(id, song_id),
            r@.wf(),
    {
        let r = Project {
            id,
            is_saved: false,
            file_path: String::new(),
            song: Song::with_id(song_id),
            instruments: HashMap::new(),
            controllers: HashMap::new(),
            generator_list: Vec::new(),
        };
        assert(r@.instruments =~= Map::<u64, GeneratorView>::empty());
        assert(r@.controllers =~= Map::<u64, GeneratorView>::empty());
        r
    }
}

impl Project {
    /// Whether the project holds a pattern of that identifier.
    pub fn has_pattern(&self, pattern_id: u64) -> (r: bool)
        ensures
            r == self@.has_pattern(pattern_id),
    {
        self.song.patterns.contains_key(&pattern_id)
    }

    /// Whether the pattern exists and holds a note list for the generator.
    pub fn has_note_list(&self, pattern_id: u64, generator_id: u64) -> (r: bool)
        ensures
            r == self@.has_note_list(pattern_id, generator_id),
    {
        match self.song.patterns.get(&pattern_id) {
            Some(pattern) => pattern.generator_notes.contains_key(&generator_id),
            None => false,
        }
    }

    /// The first note of that identifier in the generator's list in the
    /// pattern, if the pattern, the list and such a note exist.
    pub fn find_note(&self, pattern_id: u64, generator_id: u64, note_id: u64) -> (r: Option<Note>)
        ensures
            r.is_some() <==> self@.has_note_list(pattern_id, generator_id) && has_note(
                self@.notes(pattern_id, generator_id),
                note_id,
            ),
            r.is_some() ==> r.unwrap() == self@.notes(pattern_id, generator_id)[note_position(
                self@.notes(pattern_id, generator_id),
                note_id,
            )],
    {
        match self.song.patterns.get(&pattern_id) {
            Some(pattern) => match pattern.generator_notes.get(&generator_id) {
                Some(list) => match find_note(&list.notes, note_id) {
                    Some(index) => Some(list.notes[index]),
                    None => None,
                },
                None => None,
            },
            None => None,
        }
    }

    /// The index of the first note of that identifier in the generator's list
    /// in the pattern, if the pattern, the list and such a note exist.
    pub fn find_note_index(&self, pattern_id: u64, generator_id: u64, note_id: u64) -> (r: Option<
        usize,
    >)
        ensures
            r.is_some() <==> self@.has_note_list(pattern_id, generator_id) && has_note(
                self@.notes(pattern_id, generator_id),
                note_id,
            ),
            r.is_some() ==> r.unwrap() == note_position(
                self@.notes(pattern_id, generator_id),
                note_id,
            ),
    {
        match self.song.patterns.get(&pattern_id) {
            Some(pattern) => match pattern.generator_notes.get(&generator_id) {
                Some(list) => find_note(&list.notes, note_id),
                None => None,
            },
            None => None,
        }
    }

    /// How many notes the generator has in the pattern: none where the
    /// pattern or the list does not exist.
    pub fn note_count(&self, pattern_id: u64, generator_id: u64) -> (r: usize)
        ensures
            self@.has_note_list(pattern_id, generator_id) ==> r == self@.notes(
                pattern_id,
                generator_id,
            ).len(),
            !self@.has_note_list(pattern_id, generator_id) ==> r == 0,
    {
        match self.song.patterns.get(&pattern_id) {
            Some(pattern) => match pattern.generator_notes.get(&generator_id) {
                Some(list) => list.notes.len(),
                None => 0,
            },
            None => 0,
        }
    }

    /// Whether the generator has a list in the pattern and every note of it
    /// has the identifier `note_id`.
    pub fn holds_only_note(&self, pattern_id: u64, generator_id: u64, note_id: u64) -> (r: bool)
        ensures
            r == (self@.has_note_list(pattern_id, generator_id) && holds_only(
                self@.notes(pattern_id, generator_id),
                note_id,
            )),
    {
        match self.song.patterns.get(&pattern_id) {
            Some(pattern) => match pattern.generator_notes.get(&generator_id) {
                Some(list) => holds_only_id(&list.notes, note_id),
                None => false,
            },
            None => false,
        }
    }

    /// Whether no identifier in the project is 0.
    pub fn has_no_zero_id(&self) -> (r: bool)
        ensures
            r == self@.has_no_zero_id(),
    {
        self.id != 0 && self.song.id != 0 && !self.song.patterns.contains_key(&0)
            && !self.instruments.contains_key(&0) && !self.controllers.contains_key(&0)
    }

    /// Whether the identifier is that of an instrument or of a controller of
    /// the project.
    pub fn has_generator(&self, id: u64) -> (r: bool)
        ensures
            r == self@.has_generator(id),
    {
        self.instruments.contains_key(&id) || self.controllers.contains_key(&id)
    }
}

/// Two finite sets that together are as large as a list without duplicates
/// that names each of their members share no member.
proof fn lemma_generators_len(list: Seq<u64>, instruments: Set<u64>, controllers: Set<u64>)
    requires
        list.no_duplicates(),
        instruments.finite(),
        controllers.finite(),
        forall|x: u64| list.contains(x) <==> (instruments.contains(x) || controllers.contains(x)),
        forall|x: u64| !(instruments.contains(x) && controllers.contains(x)),
    ensures
        instruments.len() + controllers.len() == list.len(),
{
    lemma_listed_keys_len(list, instruments.union(controllers));
    assert(instruments.disjoint(controllers));
    vstd::set_lib::lemma_set_disjoint_lens(instruments, controllers);
    assert(instruments + controllers =~= instruments.union(controllers));
}

impl Project {
    /// Whether the project is well formed: its song is, its generator list
    /// names each instrument and each controller once and nothing else, no
    /// identifier is both, and each generator is filed under its own
    /// identifier.
    pub fn is_well_formed(&self) -> (r: bool)
        ensures
            r == self@.wf(),
    {
        let ghost instruments = self.instruments@.dom();
        let ghost controllers = self.controllers@.dom();
        assert(instruments =~= self@.instruments.dom());
        assert(controllers =~= self@.controllers.dom());
        if !self.song.is_well_formed() {
            return false;
        }
        if !has_no_duplicates(&self.generator_list) {
            return false;
        }
        let total = self.generator_list.len();
        if self.instruments.len() > total || total - self.instruments.len()
            != self.controllers.len() {
            proof {
                if self@.wf() {
                    lemma_generators_len(self.generator_list@, instruments, controllers);
                }
            }
            return false;
        }
        let mut i: usize = 0;
        while i < self.generator_list.len()
            invariant
                i <= self.generator_list.len(),
                instruments == self.instruments@.dom(),
                controllers == self.controllers@.dom(),
                instruments == self@.instruments.dom(),
                controllers == self@.controllers.dom(),
                forall|j: int|
                    #![trigger self.generator_list@[j]]
                    0 <= j < i ==> (instruments.contains(self.generator_list@[j])
                        != controllers.contains(self.generator_list@[j])),
                forall|j: int|
                    #![trigger self.generator_list@[j]]
                    0 <= j < i && instruments.contains(self.generator_list@[j])
                        ==> self.instruments@[self.generator_list@[j]].id
                        == self.generator_list@[j],
                forall|j: int|
                    #![trigger self.generator_list@[j]]
                    0 <= j < i && controllers.contains(self.generator_list@[j])
                        ==> self.controllers@[self.generator_list@[j]].id
                        == self.generator_list@[j],
            decreases self.generator_list.len() - i,
        {
            let id = self.generator_list[i];
            assert(self.generator_list@.contains(id));
            match self.instruments.get(&id) {
                Some(instrument) => {
                    if instrument.id != id {
                        assert(self@.instruments[id].id != id);
                        return false;
                    }
                    if self.controllers.contains_key(&id) {
                        return false;
                    }
                },
                None => match self.controllers.get(&id) {
                    Some(controller) => {
                        if controller.id != id {
                            assert(self@.controllers[id].id != id);
                            return false;
                        }
                    },
                    None => {
                        return false;
                    },
                },
            }
            i = i + 1;
        }
        proof {
            let list = self.generator_list@;
            let both = instruments.union(controllers);
            vstd::set_lib::lemma_len_union(instruments, controllers);
            assert(list.to_set().subset_of(both)) by {
                assert forall|x: u64| list.to_set().contains(x) implies both.contains(x) by {
                    let j = choose|j: int| 0 <= j < list.len() && list[j] == x;
                    assert(instruments.contains(list[j]) != controllers.contains(list[j]));
                }
            }
            list.unique_seq_to_set();
            vstd::set_lib::lemma_len_subset(list.to_set(), both);
            assert forall|j: int| 0 <= j < list.len() implies both.contains(
                #[trigger] list[j],
            ) by {
                assert(instruments.contains(list[j]) != controllers.contains(list[j]));
            }
            lemma_list_covers_keys(list, both);
            assert forall|x: u64|
                list.contains(x) <==> (self@.instruments.contains_key(x)
                    || self@.controllers.contains_key(x)) by {
                assert(list.contains(x) <==> both.contains(x));
            }
            assert forall|x: u64|
                !(self@.instruments.contains_key(x) && self@.controllers.contains_key(x)) by {
                if instruments.contains(x) && controllers.contains(x) {
                    assert(both.contains(x));
                    assert(list.contains(x));
                    let j = choose|j: int| 0 <= j < list.len() && list[j] == x;
                    assert(instruments.contains(list[j]) != controllers.contains(list[j]));
                }
            }
            assert forall|x: u64| #[trigger]
                self@.instruments.contains_key(x) implies self@.instruments[x].id == x by {
                assert(both.contains(x));
                assert(list.contains(x));
                let j = choose|j: int| 0 <= j < list.len() && list[j] == x;
                assert(instruments.contains(list[j]));
            }
            assert forall|x: u64| #[trigger]
                self@.controllers.contains_key(x) implies self@.controllers[x].id == x by {
                assert(both.contains(x));
                assert(list.contains(x));
                let j = choose|j: int| 0 <= j < list.len() && list[j] == x;
                assert(controllers.contains(list[j]));
            }
        }
        true
    }
}

impl Project {
    /// An empty, unsaved project with new identifiers; nothing where no
    /// identifier can be drawn.
    pub fn new() -> (r: Option<Self>)
        ensures
            r.is_some() ==> r.unwrap()@ == ProjectView::empty(
                r.unwrap().id,
                r.unwrap().song.id,
            ) && r.unwrap()@.wf(),
    {
        match get_id() {
            Some(id) => match get_id() {
                Some(song_id) => Some(Project::with_ids(id, song_id)),
                None => None,
            },
            None => None,
        }
    }
}

impl Clone for Project {
    fn clone(&self) -> (r: Self)
        ensures
            r@ == self@,
    {
        let mut generators: Vec<u64> = Vec::new();
        let mut i: usize = 0;
        while i < self.generator_list.len()
            invariant
                i <= self.generator_list.len(),
                generators@ == self.generator_list@.subrange(0, i as int),
            decreases self.generator_list.len() - i,
        {
            generators.push(self.generator_list[i]);
            assert(generators@ =~= self.generator_list@.subrange(0, i + 1));
            i = i + 1;
        }
        assert(generators@ =~= self.generator_list@);
        Project {
            id: self.id,
            is_saved: self.is_saved,
            file_path: self.file_path.clone(),
            song: self.song.clone(),
            instruments: self.instruments.clone(),
            controllers: self.controllers.clone(),
            generator_list: generators,
        }
    }
}

} // verus!
