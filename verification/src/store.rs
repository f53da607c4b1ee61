//! The entity store.
//!
//! A [`World`] is a row of slots. A slot is either vacant or holds the
//! components of one entity, and it counts how often it has been handed
//! out. An [`EntityId`] names a slot together with that count, so the
//! identifier of a removed entity never names a later tenant of its slot.

use crate::components::{Component, Components, Tag};
use vstd::prelude::*;

verus! {

/// The name of one entity: its slot, and the slot's count when it moved in.
#[derive(Clone, Copy, Debug, PartialEq, Eq, Hash)]
pub struct EntityId {
    pub index: usize,
    pub generation: u64,
}

/// One slot of the store.
#[derive(Clone, Copy, Debug, PartialEq, Eq)]
pub struct Slot {
    /// How often the slot has been handed out again.
    pub generation: u64,
    /// The components of the entity that lives here, if one does.
    pub components: Option<Components>,
}

/// The pool of live entities.
#[derive(Debug)]
pub struct World {
    slots: Vec<Slot>,
}

impl View for World {
    type V = Seq<Slot>;

    /// The slots, in order.
    closed spec fn view(&self) -> Seq<Slot> {
        self.slots@
    }
}

/// Whether `id` names an entity that lives in `s`.
pub open spec fn is_live(s: Seq<Slot>, id: EntityId) -> bool {
    &&& id.index < s.len()
    &&& s[id.index as int].generation == id.generation
    &&& s[id.index as int].components is Some
}

/// Whether `id` names an entity that once lived in `s` and was removed.
pub open spec fn is_stale(s: Seq<Slot>, id: EntityId) -> bool {
    &&& id.index < s.len()
    &&& {
        ||| id.generation < s[id.index as int].generation
        ||| id.generation == s[id.index as int].generation && s[id.index as int].components is None
    }
}

/// Whether a new entity can move into `slot`: nobody lives there, and its
/// count can still grow.
pub open spec fn is_vacant(slot: Slot) -> bool {
    slot.components is None && slot.generation < u64::MAX
}

/// The tag of the entity in `slot`, if one lives there and is tagged.
pub open spec fn slot_tag(slot: Slot) -> Option<Tag> {
    match slot.components {
        Some(c) => c.tag,
        None => None,
    }
}

/// Whether `slot` holds an entity tagged `tag`.
pub open spec fn slot_has_tag(slot: Slot, tag: Tag) -> bool {
    slot_tag(slot) == Some(tag)
}

/// `slot` with its tenant replaced by `after`; the count stays.
pub open spec fn with_components(slot: Slot, after: Option<Components>) -> Slot {
    Slot { generation: slot.generation, components: after }
}

/// The first vacant slot at or after `from`; the length of `s` if there is none.
pub open spec fn first_vacant(s: Seq<Slot>, from: int) -> int
    decreases s.len() - from,
{
    if from < 0 || from >= s.len() {
        s.len() as int
    } else if is_vacant(s[from]) {
        from
    } else {
        first_vacant(s, from + 1)
    }
}

/// The slot that the next entity moves into, as it will be once `components` live there.
pub open spec fn spawned_slot(s: Seq<Slot>, components: Components) -> Slot {
    let i = first_vacant(s, 0);
    if i < s.len() {
        Slot { generation: (s[i].generation + 1) as u64, components: Some(components) }
    } else {
        Slot { generation: 0, components: Some(components) }
    }
}

/// The identifier that the next entity spawned in `s` gets: the first vacant
/// slot with its count raised by one, or a new slot at the end.
pub open spec fn spec_spawn_id(s: Seq<Slot>) -> EntityId {
    EntityId {
        index: first_vacant(s, 0) as usize,
        generation: spawned_slot(s, Components::spec_empty()).generation,
    }
}

/// `s` after an entity with `components` was spawned.
pub open spec fn spec_spawn(s: Seq<Slot>, components: Components) -> Seq<Slot> {
    let i = first_vacant(s, 0);
    if i < s.len() {
        s.update(i, spawned_slot(s, components))
    } else {
        s.push(spawned_slot(s, components))
    }
}

/// The components of `id`, if it is live.
pub open spec fn spec_get(s: Seq<Slot>, id: EntityId) -> Option<Components> {
    if is_live(s, id) {
        s[id.index as int].components
    } else {
        None
    }
}

/// `s` with the components of `id` replaced, if it is live.
pub open spec fn spec_set(s: Seq<Slot>, id: EntityId, components: Components) -> Seq<Slot> {
    if is_live(s, id) {
        s.update(id.index as int, Slot { generation: id.generation, components: Some(components) })
    } else {
        s
    }
}

/// `s` with one component attached to `id`, if it is live.
pub open spec fn spec_attach(s: Seq<Slot>, id: EntityId, component: Component) -> Seq<Slot> {
    if is_live(s, id) {
        spec_set(s, id, s[id.index as int].components->0.spec_with(component))
    } else {
        s
    }
}

/// `s` with `id` removed, if it is live. The slot keeps its count.
pub open spec fn spec_remove(s: Seq<Slot>, id: EntityId) -> Seq<Slot> {
    if is_live(s, id) {
        s.update(id.index as int, Slot { generation: id.generation, components: None })
    } else {
        s
    }
}

/// The identifier of the entity in slot `index`, if one lives there.
pub open spec fn spec_entity_at(s: Seq<Slot>, index: int) -> Option<EntityId> {
    if 0 <= index < s.len() && s[index].components is Some {
        Some(EntityId { index: index as usize, generation: s[index].generation })
    } else {
        None
    }
}

/// The identifiers of the entities tagged `tag`, in the order of their slots.
pub open spec fn tagged_ids(s: Seq<Slot>, tag: Tag) -> Seq<EntityId>
    decreases s.len(),
{
    if s.len() == 0 {
        Seq::empty()
    } else if slot_has_tag(s.last(), tag) {
        tagged_ids(s.drop_last(), tag).push(
            EntityId { index: (s.len() - 1) as usize, generation: s.last().generation },
        )
    } else {
        tagged_ids(s.drop_last(), tag)
    }
}

/// How many entities are tagged `tag`.
pub open spec fn count_tagged(s: Seq<Slot>, tag: Tag) -> nat {
    tagged_ids(s, tag).len()
}

impl World {
    /// A store without entities.
    pub fn new() -> (world: World)
        ensures
            world@ == Seq::<Slot>::empty(),
    {
        World { slots: Vec::new() }
    }

    /// The number of slots, vacant ones included.
    pub fn slot_count(&self) -> (n: usize)
        ensures
            n == self@.len(),
    {
        self.slots.len()
    }

    /// Spawns an entity that carries `components` and returns its identifier.
    ///
    /// It moves into the first vacant slot, whose count goes up by one; if no
    /// slot is vacant, a new one is added at the end.
    pub fn spawn(&mut self, components: Components) -> (id: EntityId)
        ensures
            final(self)@ == spec_spawn(old(self)@, components),
            id == spec_spawn_id(old(self)@),
            !is_live(old(self)@, id),
            !is_stale(old(self)@, id),
            spec_get(final(self)@, id) == Some(components),
    {
        let n: usize = self.slots.len();
        proof {
            law_spawn_is_fresh(self.slots@, components, spec_spawn_id(self.slots@));
        }
        let mut i: usize = 0;
        while i < n
            invariant
                i <= n,
                n == self.slots@.len(),
                self.slots@ == old(self).slots@,
                first_vacant(self.slots@, 0) == first_vacant(self.slots@, i as int),
            decreases n - i,
        {
            let slot: Slot = self.slots[i];
            if slot.components.is_none() && slot.generation < u64::MAX {
                let generation: u64 = slot.generation + 1;
                self.slots[i] = Slot { generation, components: Some(components) };
                return EntityId { index: i, generation };
            }
            i += 1;
        }
        self.slots.push(Slot { generation: 0, components: Some(components) });
        EntityId { index: n, generation: 0 }
    }

    /// Spawns an entity that carries nothing yet.
    pub fn create(&mut self) -> (id: EntityId)
        ensures
            final(self)@ == spec_spawn(old(self)@, Components::spec_empty()),
            id == spec_spawn_id(old(self)@),
            !is_live(old(self)@, id),
            !is_stale(old(self)@, id),
            spec_get(final(self)@, id) == Some(Components::spec_empty()),
    {
        self.spawn(Components::empty())
    }

    /// Whether `id` names a live entity.
    pub fn contains(&self, id: EntityId) -> (live: bool)
        ensures
            live == is_live(self@, id),
    {
        id.index < self.slots.len() && self.slots[id.index].generation == id.generation
            && self.slots[id.index].components.is_some()
    }

    /// The components of `id`; `None` if it is not live.
    pub fn get(&self, id: EntityId) -> (components: Option<Components>)
        ensures
            components == spec_get(self@, id),
    {
        if self.contains(id) {
            self.slots[id.index].components
        } else {
            None
        }
    }

    /// Replaces the components of `id`. Returns whether `id` was live; if it
    /// was not, nothing changes.
    pub fn set(&mut self, id: EntityId, components: Components) -> (live: bool)
        ensures
            live == is_live(old(self)@, id),
            final(self)@ == spec_set(old(self)@, id, components),
    {
        if self.contains(id) {
            self.slots[id.index] = Slot { generation: id.generation, components: Some(components) };
            true
        } else {
            false
        }
    }

    /// Attaches one component to `id`, in place of one of the same kind.
    /// Returns whether `id` was live; if it was not, nothing changes.
    pub fn attach(&mut self, id: EntityId, component: Component) -> (live: bool)
        ensures
            live == is_live(old(self)@, id),
            final(self)@ == spec_attach(old(self)@, id, component),
    {
        match self.get(id) {
            Some(components) => self.set(id, components.with(component)),
            None => false,
        }
    }

    /// Removes `id`. Returns whether it was live; removing an entity that is
    /// already gone changes nothing.
    pub fn remove(&mut self, id: EntityId) -> (live: bool)
        ensures
            live == is_live(old(self)@, id),
            final(self)@ == spec_remove(old(self)@, id),
    {
        if self.contains(id) {
            self.slots[id.index] = Slot { generation: id.generation, components: None };
            true
        } else {
            false
        }
    }

    /// The identifier of the entity in slot `index`; `None` if the slot is
    /// vacant or `index` is past the last slot.
    pub fn entity_at(&self, index: usize) -> (id: Option<EntityId>)
        ensures
            id == spec_entity_at(self@, index as int),
    {
        if index < self.slots.len() && self.slots[index].components.is_some() {
            Some(EntityId { index, generation: self.slots[index].generation })
        } else {
            None
        }
    }

    /// The identifiers of all entities tagged `tag`, in the order of their slots.
    pub fn query(&self, tag: Tag) -> (ids: Vec<EntityId>)
        ensures
            ids@ == tagged_ids(self@, tag),
    {
        let n: usize = self.slots.len();
        let mut ids: Vec<EntityId> = Vec::new();
        let mut i: usize = 0;
        while i < n
            invariant
                i <= n,
                n == self.slots@.len(),
                ids@ == tagged_ids(self.slots@.take(i as int), tag),
            decreases n - i,
        {
            let slot: Slot = self.slots[i];
            proof {
                assert(self.slots@.take(i + 1).drop_last() == self.slots@.take(i as int));
            }
            match slot.components {
                Some(components) => {
                    if components.has_tag(tag) {
                        ids.push(EntityId { index: i, generation: slot.generation });
                    }
                },
                None => {},
            }
            i += 1;
        }
        proof {
            assert(self.slots@.take(n as int) == self.slots@);
        }
        ids
    }

    /// How many entities are tagged `tag`.
    pub fn count(&self, tag: Tag) -> (n: usize)
        ensures
            n == count_tagged(self@, tag),
    {
        self.query(tag).len()
    }
}

/// One if `slot` holds an entity tagged `tag`, else zero.
pub open spec fn tagged_one(slot: Slot, tag: Tag) -> int {
    if slot_has_tag(slot, tag) {
        1
    } else {
        0
    }
}

/// What `first_vacant` finds: a vacant slot with none before it, or the end.
pub proof fn lemma_first_vacant(s: Seq<Slot>, from: int)
    requires
        0 <= from <= s.len(),
    ensures
        from <= first_vacant(s, from) <= s.len(),
        first_vacant(s, from) < s.len() ==> is_vacant(s[first_vacant(s, from)]),
        forall|j: int| from <= j < first_vacant(s, from) ==> !is_vacant(#[trigger] s[j]),
    decreases s.len() - from,
{
    if from < s.len() && !is_vacant(s[from]) {
        lemma_first_vacant(s, from + 1);
    }
}

/// A slot added at the end counts for its own tag only.
proof fn lemma_count_push(s: Seq<Slot>, slot: Slot, tag: Tag)
    ensures
        count_tagged(s.push(slot), tag) == count_tagged(s, tag) + tagged_one(slot, tag),
{
    assert(s.push(slot).drop_last() == s);
}

/// Replacing one slot changes the count by what left and what came.
proof fn lemma_count_update(s: Seq<Slot>, i: int, slot: Slot, tag: Tag)
    requires
        0 <= i < s.len(),
    ensures
        count_tagged(s.update(i, slot), tag) == count_tagged(s, tag) - tagged_one(s[i], tag)
            + tagged_one(slot, tag),
    decreases s.len(),
{
    if i == s.len() - 1 {
        assert(s.update(i, slot).drop_last() == s.drop_last());
    } else {
        assert(s.update(i, slot).drop_last() == s.drop_last().update(i, slot));
        lemma_count_update(s.drop_last(), i, slot, tag);
    }
}

/// Stores that agree, slot by slot, on who is tagged `tag` hold equally many of them.
pub proof fn lemma_count_same(s: Seq<Slot>, t: Seq<Slot>, tag: Tag)
    requires
        s.len() == t.len(),
        forall|i: int| 0 <= i < s.len() ==> slot_has_tag(s[i], tag) == slot_has_tag(t[i], tag),
    ensures
        count_tagged(s, tag) == count_tagged(t, tag),
    decreases s.len(),
{
    if s.len() > 0 {
        lemma_count_same(s.drop_last(), t.drop_last(), tag);
    }
}

/// A store in which no slot is tagged `tag` holds none of them.
pub proof fn lemma_count_none(s: Seq<Slot>, tag: Tag)
    requires
        forall|i: int| 0 <= i < s.len() ==> !slot_has_tag(s[i], tag),
    ensures
        count_tagged(s, tag) == 0,
    decreases s.len(),
{
    if s.len() > 0 {
        lemma_count_none(s.drop_last(), tag);
    }
}

/// Spawning adds one entity: the count of its tag goes up by one, every
/// other count stays.
pub proof fn law_spawn_adds_one(s: Seq<Slot>, components: Components, tag: Tag)
    ensures
        count_tagged(spec_spawn(s, components), tag) == count_tagged(s, tag) + (if components.tag
            == Some(tag) {
            1int
        } else {
            0int
        }),
{
    lemma_first_vacant(s, 0);
    let i = first_vacant(s, 0);
    if i < s.len() {
        lemma_count_update(s, i, spawned_slot(s, components), tag);
    } else {
        lemma_count_push(s, spawned_slot(s, components), tag);
    }
}

/// The identifier that `spawn` returns is new: it names no entity that lives
/// or ever lived in the store. Afterwards it names the spawned entity, and
/// every other identifier means what it meant before.
pub proof fn law_spawn_is_fresh(s: Seq<Slot>, components: Components, other: EntityId)
    requires
        s.len() <= usize::MAX,
    ensures
        !is_live(s, spec_spawn_id(s)),
        !is_stale(s, spec_spawn_id(s)),
        spec_get(spec_spawn(s, components), spec_spawn_id(s)) == Some(components),
        other != spec_spawn_id(s) ==> spec_get(spec_spawn(s, components), other) == spec_get(s, other),
        is_stale(s, other) ==> is_stale(spec_spawn(s, components), other),
{
    lemma_first_vacant(s, 0);
}

/// Removal is for good: the identifier is stale at once, and removing it
/// again changes nothing.
pub proof fn law_remove_is_final(s: Seq<Slot>, id: EntityId, other: EntityId)
    ensures
        !is_live(spec_remove(s, id), id),
        is_live(s, id) ==> is_stale(spec_remove(s, id), id),
        spec_remove(spec_remove(s, id), id) == spec_remove(s, id),
        other != id ==> spec_get(spec_remove(s, id), other) == spec_get(s, other),
        is_stale(s, other) ==> is_stale(spec_remove(s, id), other),
{
}

/// Whether `after` can come after `before` in the life of one store: no
/// slot is lost, no count falls, and a slot that its tenant has left stays
/// empty for as long as its count stays.
pub open spec fn follows(after: Seq<Slot>, before: Seq<Slot>) -> bool {
    &&& before.len() <= after.len()
    &&& forall|i: int|
        0 <= i < before.len() ==> {
            &&& before[i].generation <= (#[trigger] after[i]).generation
            &&& before[i].generation == after[i].generation && before[i].components is None
                ==> after[i].components is None
        }
}

/// Every step of the store leads to a store that follows: nothing that the
/// store offers brings a removed entity back.
pub proof fn law_steps_follow(s: Seq<Slot>, id: EntityId, components: Components, component: Component)
    ensures
        follows(s, s),
        follows(spec_spawn(s, components), s),
        follows(spec_set(s, id, components), s),
        follows(spec_attach(s, id, component), s),
        follows(spec_remove(s, id), s),
{
    lemma_first_vacant(s, 0);
}

/// An identifier that is stale stays stale in every store that follows, and
/// so never names a live entity again.
pub proof fn law_stale_stays_stale(before: Seq<Slot>, after: Seq<Slot>, id: EntityId)
    requires
        follows(after, before),
        is_stale(before, id),
    ensures
        is_stale(after, id),
        !is_live(after, id),
{
}

} // verus!
