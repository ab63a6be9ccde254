use std::any::Any;
use std::any::TypeId;
use std::collections::HashMap;
use vstd::prelude::*;

pub mod builder;
pub mod errors;

use crate::world::key_version;
use errors::AlreadyExists;

verus! {

#[verifier::external_type_specification]
#[verifier::external_body]
pub struct ExTypeId(TypeId);

/// What a component map holds: the set of component types stored in it.
pub uninterp spec fn stored_types(c: Components) -> Set<TypeId>;

/// Relies on `TypeId::of`: the runtime identifier of the type `T`.
#[verifier::external_body]
pub(crate) fn type_key<T: Any>() -> (r: TypeId) {
    TypeId::of::<T>()
}

/// A map from a component type to the one value of that type. The values are
/// type-erased; only their type identifiers are visible to contracts. The map
/// sits behind a struct of its own because vstd's model of `HashMap` does not
/// cover `TypeId` keys.
#[verifier::external_body]
pub struct Components {
    map: HashMap<TypeId, Box<dyn Any>>,
}

impl Components {
    /// Relies on `HashMap::new`: the new map holds nothing.
    #[verifier::external_body]
    pub(crate) fn new() -> (r: Components)
        ensures
            stored_types(r) == Set::<TypeId>::empty(),
    {
        Components { map: HashMap::new() }
    }

    /// Relies on `HashMap::contains_key`.
    #[verifier::external_body]
    pub(crate) fn contains(&self, key: &TypeId) -> (r: bool)
        ensures
            r == stored_types(*self).contains(*key),
    {
        self.map.contains_key(key)
    }

    /// Relies on `HashMap::insert`: the key is present afterwards, and no other
    /// key is added or removed.
    #[verifier::external_body]
    pub(crate) fn insert<T: Any>(&mut self, key: TypeId, value: T)
        ensures
            stored_types(*final(self)) == stored_types(*old(self)).insert(key),
    {
        self.map.insert(key, Box::new(value));
    }

    /// Relies on `HashMap::remove`: the key is absent afterwards, and nothing
    /// comes back for a key that was absent. `Box::downcast` turns the value
    /// back into a `T`, and gives nothing if it was stored as another type.
    #[verifier::external_body]
    pub(crate) fn take<T: Any>(&mut self, key: &TypeId) -> (r: Option<T>)
        ensures
            stored_types(*final(self)) == stored_types(*old(self)).remove(*key),
            !stored_types(*old(self)).contains(*key) ==> r is None,
    {
        self.map.remove(key).and_then(|c| c.downcast::<T>().ok()).map(|b| *b)
    }

    /// Relies on `HashMap::get`: nothing comes back for an absent key.
    /// `downcast_ref` views the value as a `T`.
    #[verifier::external_body]
    pub(crate) fn get<T: Any>(&self, key: &TypeId) -> (r: Option<&T>)
        ensures
            !stored_types(*self).contains(*key) ==> r is None,
    {
        self.map.get(key).and_then(|c| c.downcast_ref::<T>())
    }

    /// Relies on `HashMap::get_mut`: nothing comes back for an absent key,
    /// and the keys stay as they were. `downcast_mut` views the value as a `T`.
    #[verifier::external_body]
    pub(crate) fn get_mut<T: Any>(&mut self, key: &TypeId) -> (r: Option<&mut T>)
        ensures
            !stored_types(*old(self)).contains(*key) ==> r is None,
            stored_types(*final(self)) == stored_types(*old(self)),
    {
        self.map.get_mut(key).and_then(|c| c.downcast_mut::<T>())
    }
}

} // verus!

verus! {

/// The outcome of adding a component under `key` to a component set: refused
/// exactly when the key is already present, and otherwise the key is added.
pub open spec fn add_effect(
    before: Set<TypeId>,
    after: Set<TypeId>,
    key: TypeId,
    refused: bool,
) -> bool {
    &&& (refused <==> before.contains(key))
    &&& (!refused ==> after == before.insert(key))
    &&& (refused ==> after == before)
}

/// The outcome of taking the component under `key` out of a component set:
/// the key is gone afterwards, and nothing comes back when it was absent.
pub open spec fn remove_effect(before: Set<TypeId>, after: Set<TypeId>, key: TypeId, found: bool) -> bool {
    &&& after == before.remove(key)
    &&& (found ==> before.contains(key))
}

/// The identifier of an entity in a world: the 64-bit form of the slot map
/// key that the world handed out for it (version in the high half, slot index
/// in the low half). Only a world makes one.
#[derive(Debug, Clone, Copy, PartialEq, Eq, Hash, Structural)]
pub struct EntityId {
    key: u64,
}

impl EntityId {
    /// The 64-bit form of the key.
    pub closed spec fn view(&self) -> u64 {
        self.key
    }

    /// A slot map key always carries an odd version.
    #[verifier::type_invariant]
    spec fn odd_version(&self) -> bool {
        self.key & 0x1_0000_0000u64 != 0
    }

    /// The version of the slot map key: odd, and higher each time the
    /// entity's slot is reused.
    pub fn version(&self) -> (r: u32)
        ensures
            r as u64 == key_version(self@),
    {
        let key = self.key;
        let v = key >> 32u64;
        assert(key >> 32u64 <= 0xFFFF_FFFFu64) by (bit_vector);
        v as u32
    }

    pub(crate) fn from_key(key: u64) -> (r: EntityId)
        requires
            key & 0x1_0000_0000u64 != 0,
        ensures
            r@ == key,
    {
        EntityId { key }
    }

    pub(crate) fn key(&self) -> (r: u64)
        ensures
            r == self@,
            r & 0x1_0000_0000u64 != 0,
    {
        proof {
            use_type_invariant(self);
        }
        self.key
    }
}

/// An entity: a bag of components, at most one of each type. Each method
/// that names a component type `T` works on the key `TypeId::of::<T>()`; the
/// contracts speak of that key as the one `k` that the call used.
pub struct Entity {
    components: Components,
}

impl Entity {
    /// The component types stored in this entity.
    pub closed spec fn types(&self) -> Set<TypeId> {
        stored_types(self.components)
    }

    /// Creates an entity without components.
    pub fn new() -> (r: Entity)
        ensures
            r.types() == Set::<TypeId>::empty(),
    {
        Entity { components: Components::new() }
    }

    /// Adds `component` under `key`, refusing a key that is already present.
    fn add_by_key<T: Any>(&mut self, key: TypeId, component: T) -> (r: Result<(), AlreadyExists>)
        ensures
            add_effect(old(self).types(), final(self).types(), key, r is Err),
    {
        if self.components.contains(&key) {
            Err(AlreadyExists)
        } else {
            self.components.insert(key, component);
            Ok(())
        }
    }

    /// Adds a component of type `T`, returning `AlreadyExists` if the entity
    /// already has a component of that type; the entity is then unchanged.
    pub fn add<T: Any>(&mut self, component: T) -> (r: Result<(), AlreadyExists>)
        ensures
            exists|k: TypeId| #[trigger] add_effect(old(self).types(), final(self).types(), k, r is Err),
    {
        let key = type_key::<T>();
        let r = self.add_by_key(key, component);
        assert(add_effect(old(self).types(), self.types(), key, r is Err));
        r
    }

    /// Removes the component of type `T` and returns it, or returns `None`
    /// if the entity has none.
    pub fn remove<T: Any>(&mut self) -> (r: Option<T>)
        ensures
            exists|k: TypeId| #[trigger] remove_effect(old(self).types(), final(self).types(), k, r is Some),
    {
        let key = type_key::<T>();
        let r = self.components.take(&key);
        assert(remove_effect(old(self).types(), self.types(), key, r is Some));
        r
    }

    /// The component of type `T`, if the entity has one.
    pub fn get<T: Any>(&self) -> (r: Option<&T>)
        ensures
            r is Some ==> exists|k: TypeId| self.types().contains(k),
    {
        let key = type_key::<T>();
        let r = self.components.get(&key);
        assert(r is Some ==> self.types().contains(key));
        r
    }

    /// A mutable reference to the component of type `T`, if the entity has one.
    /// The entity keeps the same component types.
    pub fn get_mut<T: Any>(&mut self) -> (r: Option<&mut T>)
        ensures
            r is Some ==> exists|k: TypeId| old(self).types().contains(k),
            final(self).types() == old(self).types(),
    {
        let key = type_key::<T>();
        let r = self.components.get_mut(&key);
        assert(r is Some ==> old(self).types().contains(key));
        r
    }
}

} // verus!

verus! {

/// Once a component type has been added, the set holds it, and adding that
/// type a second time is refused and changes nothing.
pub proof fn lemma_add_then_add_is_refused(
    before: Set<TypeId>,
    mid: Set<TypeId>,
    after: Set<TypeId>,
    key: TypeId,
    second_refused: bool,
)
    requires
        add_effect(before, mid, key, false),
        add_effect(mid, after, key, second_refused),
    ensures
        mid.contains(key),
        second_refused,
        after == mid,
{
}

/// Taking a component type out right after adding it leaves the set as it
/// was before the addition, without that type.
pub proof fn lemma_remove_after_add(
    before: Set<TypeId>,
    mid: Set<TypeId>,
    after: Set<TypeId>,
    key: TypeId,
    found: bool,
)
    requires
        add_effect(before, mid, key, false),
        remove_effect(mid, after, key, found),
    ensures
        !after.contains(key),
        after == before,
{
    assert(after =~= before);
}

/// Taking out a component type that is absent gives nothing back and changes
/// nothing.
pub proof fn lemma_remove_absent(before: Set<TypeId>, after: Set<TypeId>, key: TypeId, found: bool)
    requires
        !before.contains(key),
        remove_effect(before, after, key, found),
    ensures
        !found,
        after == before,
{
    assert(after =~= before);
}

} // verus!
