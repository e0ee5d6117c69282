//! The song of a project: its patterns, their display order, and what is
//! selected in it.

use crate::model::pattern::Pattern;
use crate::model::pattern::PatternView;
use crate::util::id::get_id;
use crate::util::id_list::has_no_duplicates;
use crate::util::id_list::lemma_list_covers_keys;
use crate::util::id_list::lemma_listed_keys_len;
use std::collections::HashMap;
use vstd::prelude::*;

verus! {

broadcast use vstd::std_specs::hash::group_hash_axioms;

#[derive(Debug, PartialEq, Eq)]
pub struct Song {
    pub id: u64,
    pub ticks_per_quarter: u64,
    pub patterns: HashMap<u64, Pattern>,
    pub pattern_order: Vec<u64>,
    /// The selected pattern, or 0 where none is selected.
    pub active_pattern_id: u64,
    /// The selected instrument, or 0 where none is selected.
    pub active_instrument_id: u64,
    /// The selected controller, or 0 where none is selected.
    pub active_controller_id: u64,
}

/// What a song is to the contracts.
pub ghost struct SongView {
    pub id: u64,
    pub ticks_per_quarter: u64,
    pub patterns: Map<u64, PatternView>,
    pub pattern_order: Seq<u64>,
    pub active_pattern_id: u64,
    pub active_instrument_id: u64,
    pub active_controller_id: u64,
}

/// The patterns of a song, each as its view.
pub open spec fn pattern_views(patterns: Map<u64, Pattern>) -> Map<u64, PatternView> {
    patterns.map_values(|pattern: Pattern| pattern@)
}

impl View for Song {
    type V = SongView;

    open spec fn view(&self) -> SongView {
        SongView {
            id: self.id,
            ticks_per_quarter: self.ticks_per_quarter,
            patterns: pattern_views(self.patterns@),
            pattern_order: self.pattern_order@,
            active_pattern_id: self.active_pattern_id,
            active_instrument_id: self.active_instrument_id,
            active_controller_id: self.active_controller_id,
        }
    }
}

impl SongView {
    /// The song with the given identifier that holds no pattern and has
    /// nothing selected, at 96 ticks per quarter note.
    pub open spec fn empty(id: u64) -> SongView {
        SongView {
            id,
            ticks_per_quarter: 96,
            patterns: Map::empty(),
            pattern_order: Seq::empty(),
            active_pattern_id: 0,
            active_instrument_id: 0,
            active_controller_id: 0,
        }
    }

    /// The display order names each pattern of the song once and nothing
    /// else, and each pattern is filed under its own identifier.
    pub open spec fn wf(self) -> bool {
        &&& self.pattern_order.no_duplicates()
        &&& forall|id: u64|
            #![trigger self.pattern_order.contains(id)]
            #![trigger self.patterns.contains_key(id)]
            self.pattern_order.contains(id) <==> self.patterns.contains_key(id)
        &&& forall|id: u64| #[trigger]
            self.patterns.contains_key(id) ==> self.patterns[id].id == id
    }
}

/// Putting a pattern into the map of a song puts its view into the view of
/// that map, and taking one out takes its view out.
pub proof fn lemma_pattern_views_update(patterns: Map<u64, Pattern>, id: u64, pattern: Pattern)
    ensures
        pattern_views(patterns.insert(id, pattern)) == pattern_views(patterns).insert(id, pattern@),
        pattern_views(patterns.remove(id).insert(id, pattern)) == pattern_views(patterns).insert(
            id,
            pattern@,
        ),
        pattern_views(patterns.remove(id)) == pattern_views(patterns).remove(id),
{
    assert(pattern_views(patterns.insert(id, pattern)) =~= pattern_views(patterns).insert(
        id,
        pattern@,
    ));
    assert(patterns.remove(id).insert(id, pattern) =~= patterns.insert(id, pattern));
    assert(pattern_views(patterns.remove(id)) =~= pattern_views(patterns).remove(id));
}

impl Song {
    /// An empty song with the given identifier.
    pub fn with_id(id: u64) -> (r: Self)
        ensures
            r@ == SongView::empty(id),
    {
        let r = Song {
            id,
            ticks_per_quarter: 96,
            patterns: HashMap::new(),
            pattern_order: Vec::new(),
            active_pattern_id: 0,
            active_instrument_id: 0,
            active_controller_id: 0,
        };
        assert(r@.patterns =~= Map::<u64, PatternView>::empty());
        r
    }
}

impl Song {
    /// Whether the song is well formed: the display order names each pattern
    /// once and nothing else, and each pattern is filed under its own
    /// identifier.
    pub fn is_well_formed(&self) -> (r: bool)
        ensures
            r == self@.wf(),
    {
        let ghost keys = self.patterns@.dom();
        assert(keys =~= self@.patterns.dom());
        if !has_no_duplicates(&self.pattern_order) {
            return false;
        }
        if self.patterns.len() != self.pattern_order.len() {
            proof {
                if self@.wf() {
                    lemma_listed_keys_len(self.pattern_order@, keys);
                }
            }
            return false;
        }
        let mut i: usize = 0;
        while i < self.pattern_order.len()
            invariant
                i <= self.pattern_order.len(),
                keys == self.patterns@.dom(),
                keys == self@.patterns.dom(),
                forall|j: int|
                    0 <= j < i ==> keys.contains(#[trigger] self.pattern_order@[j])
                        && self.patterns@[self.pattern_order@[j]].id == self.pattern_order@[j],
            decreases self.pattern_order.len() - i,
        {
            let id = self.pattern_order[i];
            match self.patterns.get(&id) {
                Some(pattern) => {
                    if pattern.id != id {
                        assert(self@.patterns[id].id != id);
                        return false;
                    }
                },
                None => {
                    assert(self.pattern_order@.contains(id));
                    return false;
                },
            }
            i = i + 1;
        }
        proof {
            lemma_list_covers_keys(self.pattern_order@, keys);
            assert forall|id: u64| #[trigger]
                self@.patterns.contains_key(id) implies self@.patterns[id].id == id by {
                assert(self.pattern_order@.contains(id));
                let j = choose|j: int|
                    0 <= j < self.pattern_order@.len() && self.pattern_order@[j] == id;
                assert(keys.contains(self.pattern_order@[j]));
            }
        }
        true
    }
}

impl Song {
    /// An empty song with a new identifier; nothing where no identifier can
    /// be drawn.
    pub fn new() -> (r: Option<Self>)
        ensures
            r.is_some() ==> r.unwrap()@ == SongView::empty(r.unwrap().id),
    {
        match get_id() {
            Some(id) => Some(Song::with_id(id)),
            None => None,
        }
    }
}

impl Clone for Song {
    fn clone(&self) -> (r: Self)
        ensures
            r@ == self@,
    {
        let mut order: Vec<u64> = Vec::new();
        let mut i: usize = 0;
        while i < self.pattern_order.len()
            invariant
                i <= self.pattern_order.len(),
                order@ == self.pattern_order@.subrange(0, i as int),
            decreases self.pattern_order.len() - i,
        {
            order.push(self.pattern_order[i]);
            assert(order@ =~= self.pattern_order@.subrange(0, i + 1));
            i = i + 1;
        }
        assert(order@ =~= self.pattern_order@);
        Song {
            id: self.id,
            ticks_per_quarter: self.ticks_per_quarter,
            patterns: self.patterns.clone(),
            pattern_order: order,
            active_pattern_id: self.active_pattern_id,
            active_instrument_id: self.active_instrument_id,
            active_controller_id: self.active_controller_id,
        }
    }
}

} // verus!
