use crate::entities::Entity;
use crate::entities::EntityId;
use slotmap::DefaultKey;
use slotmap::HopSlotMap;
use slotmap::Key;
use slotmap::KeyData;
use std::any::TypeId;
use tokio::sync::RwLock;
use vstd::prelude::*;

verus! {

#[verifier::external_type_specification]
#[verifier::external_body]
#[verifier::reject_recursive_types(T)]
pub struct ExRwLock<T: ?Sized>(RwLock<T>);

/// The arena that stores the entities of a world: a generational slot map
/// from keys to lock-guarded entities. The map sits behind a struct of its own
/// because Verus does not take a declaration of `HopSlotMap` with the `Key`
/// bound on its key type.
#[verifier::external_body]
pub struct Arena {
    slots: HopSlotMap<DefaultKey, RwLock<Entity>>,
}

/// What an arena holds: for each live key, written in the 64-bit form of a
/// slot map key (the slot's version in the high half, its index in the low
/// half), the component types of the entity behind it, as it stands. A
/// component added or removed through an entity's lock changes them too;
/// verified code never takes such a lock, so between two of its calls they
/// change only through the world's `&mut` methods.
pub uninterp spec fn entity_types(m: Arena) -> Map<u64, Set<TypeId>>;

/// The keys that an arena has handed out: for each of its slots, the 64-bit
/// forms of the odd versions up to the slot's current version.
pub uninterp spec fn issued_keys(m: Arena) -> Set<u64>;

/// The key that a slot map looks up for the 64-bit form `k`: slot map keys
/// always carry an odd version, so the lowest bit of the version is set.
pub open spec fn lookup_key(k: u64) -> u64 {
    k | 0x1_0000_0000u64
}

/// The version of the key written as `k`.
pub open spec fn key_version(k: u64) -> u64 {
    k >> 32u64
}

/// A key whose version is odd is looked up as itself.
proof fn lemma_lookup_odd(k: u64)
    ensures
        k & 0x1_0000_0000u64 != 0 <==> lookup_key(k) == k,
{
    assert(k & 0x1_0000_0000u64 != 0 <==> k | 0x1_0000_0000u64 == k) by (bit_vector);
}

/// The most entities that a world may hold when one more is inserted: the slot
/// map panics once it would hold `u32::MAX - 1` elements.
pub const MAX_ENTITIES: usize = 4294967293;

/// The highest slot version. Removing a key of this version would wrap the
/// slot's version around to zero, after which the slot map hands out its
/// earlier keys again.
pub const MAX_VERSION: u64 = 0xFFFF_FFFF;

/// Relies on `HopSlotMap::with_key`: a new slot map holds nothing and has
/// handed out no key.
#[verifier::external_body]
fn arena_new() -> (r: Arena)
    ensures
        entity_types(r).dom() == Set::<u64>::empty(),
        issued_keys(r) == Set::<u64>::empty(),
{
    Arena { slots: HopSlotMap::with_key() }
}

/// Relies on `HopSlotMap::len`: the number of live keys.
#[verifier::external_body]
fn arena_len(m: &Arena) -> (r: usize)
    ensures
        r == entity_types(*m).len(),
{
    m.slots.len()
}

/// Relies on `HopSlotMap::insert`, with the entity put behind tokio's
/// `RwLock::new`: the key handed out was never handed out before (a vacant
/// slot has an even version, and the key takes the next odd one; a new slot
/// starts at version one), has an odd version, and names the entity
/// afterwards. It panics once the map would hold `u32::MAX - 1` elements.
#[verifier::external_body]
fn arena_insert(m: &mut Arena, value: Entity) -> (r: u64)
    requires
        entity_types(*old(m)).len() <= MAX_ENTITIES,
    ensures
        !issued_keys(*old(m)).contains(r),
        !entity_types(*old(m)).contains_key(r),
        issued_keys(*final(m)) == issued_keys(*old(m)).insert(r),
        entity_types(*final(m)) == entity_types(*old(m)).insert(r, value.types()),
        r & 0x1_0000_0000u64 != 0,
{
    m.slots.insert(RwLock::new(value)).data().as_ffi()
}

/// Relies on `HopSlotMap::remove` with the key `KeyData::from_ffi(k)`, and
/// on tokio's `RwLock::into_inner` for what comes back: the entity comes back
/// exactly when that key was live, and the key is not live after. The slot's
/// version goes up by one, so the keys handed out stay the same unless the
/// version wraps, which the `requires` leaves out.
#[verifier::external_body]
fn arena_remove(m: &mut Arena, k: u64) -> (r: Option<Entity>)
    requires
        entity_types(*old(m)).contains_key(lookup_key(k)) ==> key_version(lookup_key(k)) < MAX_VERSION,
    ensures
        r is Some <==> entity_types(*old(m)).contains_key(lookup_key(k)),
        r is Some ==> r->Some_0.types() == entity_types(*old(m))[lookup_key(k)],
        entity_types(*final(m)) == entity_types(*old(m)).remove(lookup_key(k)),
        issued_keys(*final(m)) == issued_keys(*old(m)),
{
    m.slots.remove(KeyData::from_ffi(k).into()).map(|lock| lock.into_inner())
}

/// Relies on `HopSlotMap::get` with the key `KeyData::from_ffi(k)`: a value
/// comes back exactly when that key is live.
#[verifier::external_body]
fn arena_get(m: &Arena, k: u64) -> (r: Option<&RwLock<Entity>>)
    ensures
        r is Some <==> entity_types(*m).contains_key(lookup_key(k)),
{
    m.slots.get(KeyData::from_ffi(k).into())
}

} // verus!

verus! {

/// A world: the owner of all entities, each behind its own reader/writer lock
/// and named by a generation-stamped id. Adding or removing entities takes the
/// world by `&mut`, so it never runs alongside a lookup; lookups take it by
/// `&`, so any number of them run together, and each caller then locks the one
/// entity it needs.
pub struct World {
    entities: Arena,
}

impl World {
    /// For each id of the world, the component types of its entity.
    pub closed spec fn contents(&self) -> Map<u64, Set<TypeId>> {
        entity_types(self.entities)
    }

    /// Every id that the world has handed out, live or removed.
    pub closed spec fn issued(&self) -> Set<u64> {
        issued_keys(self.entities)
    }

    /// The ids of the entities in the world.
    pub open spec fn ids(&self) -> Set<u64> {
        self.contents().dom()
    }

    /// Whether `id` names an entity of this world.
    pub open spec fn holds(&self, id: EntityId) -> bool {
        self.contents().contains_key(id@)
    }

    /// Whether `id` was handed out by this world and its entity removed since.
    pub open spec fn is_stale(&self, id: EntityId) -> bool {
        self.issued().contains(id@) && !self.holds(id)
    }

    /// Creates an empty world.
    pub fn new() -> (r: World)
        ensures
            r.contents().dom() == Set::<u64>::empty(),
            r.issued() == Set::<u64>::empty(),
    {
        World { entities: arena_new() }
    }

    /// The number of entities in the world.
    pub fn len(&self) -> (r: usize)
        ensures
            r == self.contents().len(),
    {
        arena_len(&self.entities)
    }

    /// Inserts an entity and returns its new id, which the world never handed
    /// out before; the other entities stay as they were.
    pub fn insert(&mut self, entity: Entity) -> (r: EntityId)
        requires
            old(self).contents().len() <= MAX_ENTITIES,
        ensures
            !old(self).issued().contains(r@),
            !old(self).holds(r),
            final(self).issued() == old(self).issued().insert(r@),
            final(self).contents() == old(self).contents().insert(r@, entity.types()),
    {
        let key = arena_insert(&mut self.entities, entity);
        EntityId::from_key(key)
    }

    /// Removes the entity named by `id` and returns it; returns `None` when
    /// `id` names no entity of the world (it was never issued here, or its
    /// entity was removed already). The other entities stay as they were.
    /// A slot's version cannot go past `MAX_VERSION`, so the entity of an id
    /// of that version is not removed.
    pub fn remove(&mut self, id: EntityId) -> (r: Option<Entity>)
        requires
            old(self).holds(id) ==> key_version(id@) < MAX_VERSION,
        ensures
            r is Some <==> old(self).holds(id),
            r is Some ==> r->Some_0.types() == old(self).contents()[id@],
            final(self).contents() == old(self).contents().remove(id@),
            final(self).issued() == old(self).issued(),
    {
        let key = id.key();
        proof {
            lemma_lookup_odd(key);
        }
        arena_remove(&mut self.entities, key)
    }

    /// The lock around the entity named by `id`, or `None` when `id` names no
    /// entity of the world.
    pub fn get(&self, id: EntityId) -> (r: Option<&RwLock<Entity>>)
        ensures
            r is Some <==> self.holds(id),
    {
        let key = id.key();
        proof {
            lemma_lookup_odd(key);
        }
        arena_get(&self.entities, key)
    }
}

} // verus!

verus! {

/// Inserting an entity and looking up its id finds it, with the component
/// types it had when it was inserted.
pub proof fn lemma_insert_round_trip(before: World, after: World, entity: Entity, id: EntityId)
    requires
        after.contents() == before.contents().insert(id@, entity.types()),
    ensures
        after.holds(id),
        after.contents()[id@] == entity.types(),
{
}

/// Removing an entity right after inserting it gives back its component
/// types and leaves the world with the entities it had before.
pub proof fn lemma_insert_then_remove(
    before: World,
    mid: World,
    after: World,
    entity: Entity,
    id: EntityId,
    removed: Entity,
)
    requires
        !before.holds(id),
        mid.contents() == before.contents().insert(id@, entity.types()),
        removed.types() == mid.contents()[id@],
        after.contents() == mid.contents().remove(id@),
    ensures
        removed.types() == entity.types(),
        after.contents() == before.contents(),
        !after.holds(id),
{
    assert(after.contents() =~= before.contents());
}

/// Once its entity is removed, an id that the world handed out is stale: it
/// names nothing, and a second removal finds nothing.
pub proof fn lemma_removed_id_is_stale(before: World, after: World, id: EntityId)
    requires
        before.issued().contains(id@),
        after.contents() == before.contents().remove(id@),
        after.issued() == before.issued(),
    ensures
        after.is_stale(id),
        after.contents().remove(id@) == after.contents(),
{
    assert(after.contents().remove(id@) =~= after.contents());
}

/// A stale id stays stale across an insertion, and the insertion hands out
/// another id: however many entities come after, a stale id never names one.
pub proof fn lemma_stale_id_survives_insert(
    before: World,
    after: World,
    id: EntityId,
    new_id: EntityId,
    types: Set<TypeId>,
)
    requires
        before.is_stale(id),
        !before.issued().contains(new_id@),
        after.issued() == before.issued().insert(new_id@),
        after.contents() == before.contents().insert(new_id@, types),
    ensures
        new_id@ != id@,
        after.is_stale(id),
{
}

/// A stale id stays stale across the removal of any entity.
pub proof fn lemma_stale_id_survives_remove(before: World, after: World, id: EntityId, other: EntityId)
    requires
        before.is_stale(id),
        after.issued() == before.issued(),
        after.contents() == before.contents().remove(other@),
    ensures
        after.is_stale(id),
{
}

/// Two insertions into a world never hand out the same id: once handed out,
/// an id stays among the issued ones, and an insertion hands out one that is
/// not.
pub proof fn lemma_issued_ids_differ(w: World, earlier: EntityId, later: EntityId)
    requires
        w.issued().contains(earlier@),
        !w.issued().contains(later@),
    ensures
        earlier@ != later@,
{
}

} // verus!
