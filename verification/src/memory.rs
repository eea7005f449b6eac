//! What an entity remembers of where it saw others.

use vstd::prelude::*;
use bevy::utils::HashMap;
use crate::components::EntityId;
use crate::position::Position;

verus! {

/// The coordinates of a place: `x`, `y` and floor.
pub type Place = (i32, i32, i32);

/// The entities that were seen at each place, kept in a hash map of bevy's
/// utilities under the coordinates of the place.
#[verifier::external_body]
#[derive(Debug)]
pub struct MemoryTable {
    inner: HashMap<Place, Vec<EntityId>>,
}

/// The lists that a table holds, by the coordinates of their places.
pub uninterp spec fn table_lists(table: MemoryTable) -> Map<Place, Seq<EntityId>>;

/// `HashMap::default` of hashbrown, as bevy re-exports it: a map that holds
/// nothing.
#[verifier::external_body]
fn lists_new() -> (table: MemoryTable)
    ensures
        table_lists(table).dom() == Set::<Place>::empty(),
{
    MemoryTable { inner: HashMap::default() }
}

/// `HashMap::get` of hashbrown, with a copy made of what it finds: the list
/// under the key, if the map has the key.
#[verifier::external_body]
fn lists_get(table: &MemoryTable, key: Place) -> (list: Option<Vec<EntityId>>)
    ensures
        list.is_some() == table_lists(*table).dom().contains(key),
        list matches Some(l) ==> l@ == table_lists(*table)[key],
{
    table.inner.get(&key).cloned()
}

/// `HashMap::insert` of hashbrown: the map holds the list under the key
/// afterwards, in place of what it held there, and is otherwise as it was.
#[verifier::external_body]
fn lists_put(table: &mut MemoryTable, key: Place, list: Vec<EntityId>)
    ensures
        table_lists(*final(table)) == table_lists(*old(table)).insert(key, list@),
{
    table.inner.insert(key, list);
}

/// `HashMap::keys` of hashbrown, collected: every key of the map once, in
/// no particular order.
#[verifier::external_body]
fn lists_keys(table: &MemoryTable) -> (keys: Vec<Place>)
    ensures
        keys@.no_duplicates(),
        forall|key: Place| keys@.contains(key) == table_lists(*table).dom().contains(key),
{
    table.inner.keys().copied().collect()
}

/// The list without the first occurrence of `target`.
pub open spec fn spec_without(list: Seq<EntityId>, target: EntityId) -> Seq<EntityId> {
    let at = list.index_of_first(target);
    match at {
        Some(i) => list.remove(i),
        None => list,
    }
}

/// What an entity remembers.
#[derive(Debug)]
pub struct Memory {
    pub visual: MemoryTable,
}

impl Memory {
    /// The places of which the memory holds a list.
    pub open spec fn places(&self) -> Set<Place> {
        table_lists(self.visual).dom()
    }

    /// The entities that are remembered at a place, in the order in which
    /// they were seen there; none for a place that is not remembered.
    pub open spec fn seen_at(&self, place: Place) -> Seq<EntityId> {
        if self.places().contains(place) {
            table_lists(self.visual)[place]
        } else {
            Seq::empty()
        }
    }

    /// An empty memory.
    pub fn new() -> (memory: Memory)
        ensures
            memory.places() == Set::<Place>::empty(),
    {
        Memory { visual: lists_new() }
    }

    /// The entities that are remembered at a place.
    pub fn recall(&self, posn: Position) -> (list: Vec<EntityId>)
        ensures
            list@ == self.seen_at((posn.x, posn.y, posn.z)),
    {
        match lists_get(&self.visual, (posn.x, posn.y, posn.z)) {
            Some(list) => list,
            None => Vec::new(),
        }
    }

    /// Forgets one sighting of `target` at every place where it is
    /// remembered.
    fn remove_from_memory(&mut self, target: EntityId)
        ensures
            final(self).places() == old(self).places(),
            forall|place: Place|
                final(self).seen_at(place) == spec_without(old(self).seen_at(place), target),
    {
        let keys = lists_keys(&self.visual);
        let mut n: usize = 0;
        while n < keys.len()
            invariant
                n <= keys.len(),
                keys@.no_duplicates(),
                forall|key: Place| keys@.contains(key) == old(self).places().contains(key),
                self.places() == old(self).places(),
                forall|i: int|
                    0 <= i < n ==> self.seen_at(#[trigger] keys@[i]) == spec_without(
                        old(self).seen_at(keys@[i]),
                        target,
                    ),
                forall|i: int|
                    n <= i < keys@.len() ==> self.seen_at(#[trigger] keys@[i]) == old(self).seen_at(
                        keys@[i],
                    ),
            decreases keys.len() - n,
        {
            let key = keys[n];
            assert(keys@.contains(key));
            match lists_get(&self.visual, key) {
                Some(list) => {
                    let mut list = list;
                    let at = first_index(&list, target);
                    match at {
                        Some(i) => {
                            list.remove(i);
                            lists_put(&mut self.visual, key, list);
                        },
                        None => {},
                    }
                },
                None => {},
            }
            n += 1;
        }
        proof {
            assert forall|place: Place|
                self.seen_at(place) == spec_without(old(self).seen_at(place), target) by {
                if old(self).places().contains(place) {
                    assert(keys@.contains(place));
                } else {
                    assert(Seq::<EntityId>::empty().index_of_first(target).is_none()) by {
                        Seq::<EntityId>::empty().index_of_first_ensures(target);
                    }
                }
            }
        }
    }

    /// Remembers `target` at `posn`: one earlier sighting of it is forgotten
    /// at every place, and it becomes the newest sighting at `posn`.
    pub fn update(&mut self, target: EntityId, posn: Position)
        ensures
            final(self).places() == old(self).places().insert((posn.x, posn.y, posn.z)),
            forall|place: Place|
                place != (posn.x, posn.y, posn.z) ==> final(self).seen_at(place) == spec_without(
                    old(self).seen_at(place),
                    target,
                ),
            final(self).seen_at((posn.x, posn.y, posn.z)) == spec_without(
                old(self).seen_at((posn.x, posn.y, posn.z)),
                target,
            ).push(target),
    {
        self.remove_from_memory(target);
        let key = (posn.x, posn.y, posn.z);
        let ghost forgotten = *self;
        let mut list = self.recall(posn);
        list.push(target);
        lists_put(&mut self.visual, key, list);
        assert forall|place: Place| place != key implies self.seen_at(place) == spec_without(
            old(self).seen_at(place),
            target,
        ) by {
            assert(self.seen_at(place) == forgotten.seen_at(place));
        }
    }
}

/// The index of the first occurrence of `target` in the list.
fn first_index(list: &Vec<EntityId>, target: EntityId) -> (at: Option<usize>)
    ensures
        at.is_some() == list@.index_of_first(target).is_some(),
        at matches Some(i) ==> i < list@.len() && list@.index_of_first(target) == Some(i as int),
{
    let mut i: usize = 0;
    while i < list.len()
        invariant
            i <= list.len(),
            forall|j: int| 0 <= j < i ==> list@[j] != target,
        decreases list.len() - i,
    {
        if list[i] == target {
            proof {
                list@.index_of_first_ensures(target);
            }
            return Some(i);
        }
        i += 1;
    }
    proof {
        list@.index_of_first_ensures(target);
    }
    None
}

impl Default for Memory {
    /// An empty memory.
    fn default() -> (memory: Memory)
        ensures
            memory.places() == Set::<Place>::empty(),
    {
        Memory::new()
    }
}

} // verus!
