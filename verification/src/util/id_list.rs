//! Ordered lists of identifiers: the display order of projects, patterns and
//! generators.

use std::collections::HashSet;
use vstd::prelude::*;

verus! {

/// The predicate that holds of every identifier but `id`.
pub open spec fn id_is_not(id: u64) -> spec_fn(u64) -> bool {
    |x: u64| x != id
}

/// `ids` without any occurrence of `id`, the others in their order.
pub open spec fn without_id(ids: Seq<u64>, id: u64) -> Seq<u64> {
    ids.filter(id_is_not(id))
}

/// The index of the first occurrence of `id` in `ids`, or the length of `ids`
/// if there is none.
pub open spec fn position_of(ids: Seq<u64>, id: u64) -> int
    decreases ids.len(),
{
    if ids.len() == 0 {
        0
    } else if ids[0] == id {
        0
    } else {
        1 + position_of(ids.subrange(1, ids.len() as int), id)
    }
}

/// Filtering a sequence that ends in `x` filters what comes before `x` and
/// keeps `x` where the predicate holds of it.
pub proof fn lemma_filter_push<A>(s: Seq<A>, x: A, pred: spec_fn(A) -> bool)
    ensures
        s.push(x).filter(pred) == if pred(x) {
            s.filter(pred).push(x)
        } else {
            s.filter(pred)
        },
{
    reveal(Seq::filter);
    assert(s.push(x).drop_last() =~= s);
}

/// A filtered sequence holds exactly those elements of the unfiltered one of
/// which the predicate holds.
pub proof fn lemma_filter_contains<A>(s: Seq<A>, pred: spec_fn(A) -> bool)
    ensures
        forall|x: A| #[trigger] s.filter(pred).contains(x) <==> s.contains(x) && pred(x),
    decreases s.len(),
{
    reveal(Seq::filter);
    if s.len() > 0 {
        let front = s.drop_last();
        let last = s.last();
        let kept = front.filter(pred);
        lemma_filter_contains(front, pred);
        lemma_filter_push(front, last, pred);
        assert(front.push(last) =~= s);
        assert forall|x: A| #[trigger] s.filter(pred).contains(x) <==> s.contains(x) && pred(
            x,
        ) by {
            let out = s.filter(pred);
            if out.contains(x) {
                let i = choose|i: int| 0 <= i < out.len() && out[i] == x;
                if i < kept.len() {
                    assert(kept[i] == x);
                    assert(kept.contains(x));
                    let j = choose|j: int| 0 <= j < front.len() && front[j] == x;
                    assert(s[j] == x);
                } else {
                    assert(s[s.len() - 1] == x);
                }
            }
            if s.contains(x) && pred(x) {
                let j = choose|j: int| 0 <= j < s.len() && s[j] == x;
                if j == s.len() - 1 {
                    assert(out[kept.len() as int] == x);
                } else {
                    assert(front[j] == x);
                    assert(front.contains(x));
                    assert(kept.contains(x));
                    let i = choose|i: int| 0 <= i < kept.len() && kept[i] == x;
                    assert(out[i] == x);
                }
            }
        }
    }
}

/// Filtering keeps a sequence free of duplicates.
pub proof fn lemma_filter_no_duplicates<A>(s: Seq<A>, pred: spec_fn(A) -> bool)
    requires
        s.no_duplicates(),
    ensures
        s.filter(pred).no_duplicates(),
    decreases s.len(),
{
    reveal(Seq::filter);
    if s.len() > 0 {
        let front = s.drop_last();
        lemma_filter_no_duplicates(front, pred);
        lemma_filter_contains(front, pred);
        if pred(s.last()) {
            let kept = front.filter(pred);
            if kept.contains(s.last()) {
                let j = choose|j: int| 0 <= j < front.len() && front[j] == s.last();
                assert(s[j] == s[s.len() - 1]);
            }
            assert forall|i: int, j: int|
                0 <= i < kept.push(s.last()).len() && 0 <= j < kept.push(s.last()).len() && i
                    != j implies kept.push(s.last())[i] != kept.push(s.last())[j] by {
                if i < kept.len() && j < kept.len() {
                } else if i < kept.len() {
                    assert(kept.contains(kept[i]));
                } else {
                    assert(kept.contains(kept[j]));
                }
            }
        }
    }
}

/// Filtering changes nothing where the predicate holds of every element.
pub proof fn lemma_filter_all<A>(s: Seq<A>, pred: spec_fn(A) -> bool)
    requires
        forall|i: int| 0 <= i < s.len() ==> pred(#[trigger] s[i]),
    ensures
        s.filter(pred) == s,
    decreases s.len(),
{
    reveal(Seq::filter);
    if s.len() > 0 {
        lemma_filter_all(s.drop_last(), pred);
        assert(s.drop_last().push(s.last()) =~= s);
    }
}

/// Removing an identifier that does not occur changes nothing.
pub proof fn lemma_without_absent(ids: Seq<u64>, id: u64)
    requires
        !ids.contains(id),
    ensures
        without_id(ids, id) == ids,
{
    assert forall|i: int| 0 <= i < ids.len() implies id_is_not(id)(#[trigger] ids[i]) by {
        assert(ids.contains(ids[i]));
    }
    lemma_filter_all(ids, id_is_not(id));
}

/// Removing an identifier right after inserting it, where it did not occur
/// before, gives the list back.
pub proof fn lemma_insert_then_without(ids: Seq<u64>, index: int, id: u64)
    requires
        0 <= index <= ids.len(),
        !ids.contains(id),
    ensures
        without_id(ids.insert(index, id), id) == ids,
{
    let head = ids.subrange(0, index);
    let tail = ids.subrange(index, ids.len() as int);
    assert(ids.insert(index, id) =~= head.push(id) + tail);
    Seq::filter_distributes_over_add(head.push(id), tail, id_is_not(id));
    lemma_filter_push(head, id, id_is_not(id));
    assert forall|i: int| 0 <= i < head.len() implies id_is_not(id)(#[trigger] head[i]) by {
        assert(ids.contains(ids[i]));
    }
    assert forall|i: int| 0 <= i < tail.len() implies id_is_not(id)(#[trigger] tail[i]) by {
        assert(ids.contains(ids[index + i]));
    }
    lemma_filter_all(head, id_is_not(id));
    lemma_filter_all(tail, id_is_not(id));
    assert(head + tail =~= ids);
}

/// Removing an identifier right after appending it, where it did not occur
/// before, gives the list back.
pub proof fn lemma_push_then_without(ids: Seq<u64>, id: u64)
    requires
        !ids.contains(id),
    ensures
        without_id(ids.push(id), id) == ids,
{
    lemma_filter_push(ids, id, id_is_not(id));
    lemma_without_absent(ids, id);
}

/// What a list holds after an identifier was appended, and that it still
/// holds nothing twice where the identifier is new.
pub proof fn lemma_push_members(ids: Seq<u64>, id: u64)
    ensures
        forall|x: u64| #[trigger] ids.push(id).contains(x) <==> x == id || ids.contains(x),
        ids.no_duplicates() && !ids.contains(id) ==> ids.push(id).no_duplicates(),
{
    let grown = ids.push(id);
    assert forall|x: u64| #[trigger] grown.contains(x) <==> x == id || ids.contains(x) by {
        if grown.contains(x) {
            let i = choose|i: int| 0 <= i < grown.len() && grown[i] == x;
            if i < ids.len() {
                assert(ids[i] == x);
            }
        }
        if x == id {
            assert(grown[ids.len() as int] == x);
        }
        if ids.contains(x) {
            let j = choose|j: int| 0 <= j < ids.len() && ids[j] == x;
            assert(grown[j] == x);
        }
    }
    if ids.no_duplicates() && !ids.contains(id) {
        assert forall|i: int, j: int|
            0 <= i < grown.len() && 0 <= j < grown.len() && i != j implies grown[i]
            != grown[j] by {
            if i < ids.len() {
                assert(ids.contains(ids[i]));
            }
            if j < ids.len() {
                assert(ids.contains(ids[j]));
            }
        }
    }
}

/// Inserting an identifier back at the place from which it was removed gives
/// the list back, where the list holds nothing twice.
pub proof fn lemma_without_then_insert(ids: Seq<u64>, index: int, id: u64)
    requires
        ids.no_duplicates(),
        0 <= index < ids.len(),
        ids[index] == id,
    ensures
        without_id(ids, id).len() == ids.len() - 1,
        without_id(ids, id).insert(index, id) == ids,
{
    let head = ids.subrange(0, index);
    let tail = ids.subrange(index + 1, ids.len() as int);
    assert(ids =~= head.push(id) + tail);
    Seq::filter_distributes_over_add(head.push(id), tail, id_is_not(id));
    lemma_filter_push(head, id, id_is_not(id));
    assert forall|i: int| 0 <= i < head.len() implies id_is_not(id)(#[trigger] head[i]) by {
        assert(ids[i] != ids[index]);
    }
    assert forall|i: int| 0 <= i < tail.len() implies id_is_not(id)(#[trigger] tail[i]) by {
        assert(ids[index + 1 + i] != ids[index]);
    }
    lemma_filter_all(head, id_is_not(id));
    lemma_filter_all(tail, id_is_not(id));
    assert((head + tail).insert(index, id) =~= ids);
}

/// What a list holds after an insertion, and that it still holds nothing
/// twice where the inserted identifier is new.
pub proof fn lemma_insert_members(ids: Seq<u64>, index: int, id: u64)
    requires
        0 <= index <= ids.len(),
    ensures
        forall|x: u64| #[trigger] ids.insert(index, id).contains(x) <==> x == id || ids.contains(x),
        ids.no_duplicates() && !ids.contains(id) ==> ids.insert(index, id).no_duplicates(),
{
    let grown = ids.insert(index, id);
    assert forall|x: u64| #[trigger] grown.contains(x) <==> x == id || ids.contains(x) by {
        if grown.contains(x) {
            let i = choose|i: int| 0 <= i < grown.len() && grown[i] == x;
            if i < index {
                assert(ids[i] == x);
            } else if i > index {
                assert(ids[i - 1] == x);
            }
        }
        if x == id {
            assert(grown[index] == x);
        }
        if ids.contains(x) {
            let j = choose|j: int| 0 <= j < ids.len() && ids[j] == x;
            if j < index {
                assert(grown[j] == x);
            } else {
                assert(grown[j + 1] == x);
            }
        }
    }
    if ids.no_duplicates() && !ids.contains(id) {
        assert forall|i: int, j: int|
            0 <= i < grown.len() && 0 <= j < grown.len() && i != j implies grown[i]
            != grown[j] by {
            let a = if i < index { i } else { i - 1 };
            let b = if j < index { j } else { j - 1 };
            if i != index {
                assert(ids.contains(ids[a]));
            }
            if j != index {
                assert(ids.contains(ids[b]));
            }
        }
    }
}

/// What a list holds after an identifier was removed from it.
pub proof fn lemma_without_members(ids: Seq<u64>, id: u64)
    ensures
        forall|x: u64| #[trigger] without_id(ids, id).contains(x) <==> x != id && ids.contains(x),
        ids.no_duplicates() ==> without_id(ids, id).no_duplicates(),
{
    lemma_filter_contains(ids, id_is_not(id));
    if ids.no_duplicates() {
        lemma_filter_no_duplicates(ids, id_is_not(id));
    }
}

/// `position_of` gives the first index that holds `id`: no earlier index holds
/// it, and the result is the length exactly when `id` does not occur.
pub proof fn lemma_position_of(ids: Seq<u64>, id: u64)
    ensures
        0 <= position_of(ids, id) <= ids.len(),
        position_of(ids, id) < ids.len() ==> ids[position_of(ids, id)] == id,
        forall|i: int| 0 <= i < position_of(ids, id) ==> #[trigger] ids[i] != id,
        position_of(ids, id) < ids.len() <==> ids.contains(id),
    decreases ids.len(),
{
    if ids.len() > 0 && ids[0] != id {
        let rest = ids.subrange(1, ids.len() as int);
        lemma_position_of(rest, id);
        let p = position_of(rest, id);
        assert forall|i: int| 0 <= i < p + 1 implies #[trigger] ids[i] != id by {
            if i > 0 {
                assert(rest[i - 1] != id);
            }
        }
        if p < rest.len() {
            assert(ids[p + 1] == rest[p]);
        }
        if ids.contains(id) {
            let j = choose|j: int| 0 <= j < ids.len() && ids[j] == id;
            assert(rest[j - 1] == id);
            assert(rest.contains(id));
        }
    } else if ids.len() > 0 {
        assert(ids[0] == id);
    }
}

/// The first index at or after which nothing before holds `id` is the position of `id`.
pub proof fn lemma_position_is(ids: Seq<u64>, id: u64, index: int)
    requires
        0 <= index <= ids.len(),
        forall|i: int| 0 <= i < index ==> #[trigger] ids[i] != id,
        index < ids.len() ==> ids[index] == id,
    ensures
        position_of(ids, id) == index,
{
    lemma_position_of(ids, id);
    let p = position_of(ids, id);
    if p < index {
        assert(ids[p] != id);
    } else if p > index {
        assert(ids[index] != id);
    }
}

/// Removes every occurrence of `id` from `ids` and keeps the others in order.
pub fn remove_id(ids: &mut Vec<u64>, id: u64)
    ensures
        final(ids)@ == without_id(old(ids)@, id),
{
    let mut kept: Vec<u64> = Vec::new();
    let mut i: usize = 0;
    proof {
        reveal(Seq::filter);
        assert(ids@.subrange(0, 0) =~= Seq::<u64>::empty());
    }
    while i < ids.len()
        invariant
            i <= ids.len(),
            ids@ == old(ids)@,
            kept@ == without_id(ids@.subrange(0, i as int), id),
        decreases ids.len() - i,
    {
        proof {
            lemma_filter_push(ids@.subrange(0, i as int), ids@[i as int], id_is_not(id));
            assert(ids@.subrange(0, i as int).push(ids@[i as int]) =~= ids@.subrange(
                0,
                i + 1,
            ));
        }
        if ids[i] != id {
            kept.push(ids[i]);
        }
        i = i + 1;
    }
    assert(ids@.subrange(0, i as int) =~= ids@);
    *ids = kept;
}

/// The index of the first occurrence of `id` in `ids`, if it occurs.
pub fn find_id(ids: &Vec<u64>, id: u64) -> (r: Option<usize>)
    ensures
        match r {
            Some(index) => index < ids.len() && index == position_of(ids@, id),
            None => position_of(ids@, id) == ids.len(),
        },
        r.is_some() <==> ids@.contains(id),
{
    let mut i: usize = 0;
    while i < ids.len()
        invariant
            i <= ids.len(),
            forall|j: int| 0 <= j < i ==> #[trigger] ids@[j] != id,
        decreases ids.len() - i,
    {
        if ids[i] == id {
            proof {
                lemma_position_is(ids@, id, i as int);
                lemma_position_of(ids@, id);
            }
            return Some(i);
        }
        i = i + 1;
    }
    proof {
        lemma_position_is(ids@, id, i as int);
        lemma_position_of(ids@, id);
    }
    None
}

/// A list without duplicates whose members all belong to a finite set of
/// the same size names each member of the set.
pub proof fn lemma_list_covers_keys(ids: Seq<u64>, keys: Set<u64>)
    requires
        ids.no_duplicates(),
        keys.finite(),
        keys.len() == ids.len(),
        forall|i: int| 0 <= i < ids.len() ==> keys.contains(#[trigger] ids[i]),
    ensures
        forall|x: u64| ids.contains(x) <==> keys.contains(x),
{
    broadcast use vstd::seq_lib::seq_to_set_is_finite;

    ids.unique_seq_to_set();
    assert(ids.to_set().subset_of(keys)) by {
        assert forall|x: u64| ids.to_set().contains(x) implies keys.contains(x) by {
            let i = choose|i: int| 0 <= i < ids.len() && ids[i] == x;
            assert(keys.contains(ids[i]));
        }
    }
    vstd::set_lib::lemma_subset_equality(ids.to_set(), keys);
    assert forall|x: u64| ids.contains(x) <==> keys.contains(x) by {
        assert(ids.to_set().contains(x) <==> ids.contains(x));
    }
}

/// A set whose members are those of a list without duplicates is finite and
/// as large as the list is long.
pub proof fn lemma_listed_keys_len(ids: Seq<u64>, keys: Set<u64>)
    requires
        ids.no_duplicates(),
        forall|x: u64| ids.contains(x) <==> keys.contains(x),
    ensures
        keys.finite(),
        keys.len() == ids.len(),
{
    broadcast use vstd::seq_lib::seq_to_set_is_finite;

    ids.unique_seq_to_set();
    assert(ids.to_set() =~= keys) by {
        assert forall|x: u64| ids.to_set().contains(x) <==> keys.contains(x) by {
            assert(ids.to_set().contains(x) <==> ids.contains(x));
        }
    }
}

/// Whether `ids` holds no identifier twice.
pub fn has_no_duplicates(ids: &Vec<u64>) -> (r: bool)
    ensures
        r == ids@.no_duplicates(),
{
    broadcast use vstd::std_specs::hash::group_hash_axioms;

    let mut seen: HashSet<u64> = HashSet::new();
    let mut i: usize = 0;
    while i < ids.len()
        invariant
            i <= ids.len(),
            forall|x: u64| seen@.contains(x) <==> exists|j: int| 0 <= j < i && ids@[j] == x,
            forall|a: int, b: int| 0 <= a < b < i ==> ids@[a] != ids@[b],
        decreases ids.len() - i,
    {
        let fresh = seen.insert(ids[i]);
        if !fresh {
            proof {
                let j = choose|j: int| 0 <= j < i && ids@[j] == ids@[i as int];
                assert(ids@[j] == ids@[i as int]);
            }
            return false;
        }
        proof {
            assert forall|x: u64| seen@.contains(x) <==> exists|j: int|
                0 <= j < i + 1 && ids@[j] == x by {
                if seen@.contains(x) && x != ids@[i as int] {
                    let j = choose|j: int| 0 <= j < i && ids@[j] == x;
                    assert(0 <= j < i + 1 && ids@[j] == x);
                }
                if x == ids@[i as int] {
                    assert(0 <= i < i + 1 && ids@[i as int] == x);
                }
            }
            assert forall|a: int, b: int| 0 <= a < b < i + 1 implies ids@[a] != ids@[b] by {
                if b == i {
                    if ids@[a] == ids@[b] {
                        assert(0 <= a < i && ids@[a] == ids@[i as int]);
                    }
                }
            }
        }
        i = i + 1;
    }
    assert forall|a: int, b: int| 0 <= a < ids@.len() && 0 <= b < ids@.len() && a != b implies ids@[a]
        != ids@[b] by {
        if a < b {
            assert(ids@[a] != ids@[b]);
        } else {
            assert(ids@[b] != ids@[a]);
        }
    }
    true
}

} // verus!
