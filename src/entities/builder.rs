use crate::entities::add_effect;
use crate::entities::errors::AlreadyExists;
use crate::entities::Entity;
use crate::entities::EntityId;
use crate::world::World;
use crate::world::MAX_ENTITIES;
use std::any::Any;
use std::any::TypeId;
use vstd::prelude::*;

verus! {

/// Collects the components of a new entity before it is inserted into a world.
pub struct EntityBuilder {
    entity: Entity,
}

impl EntityBuilder {
    /// The component types collected so far.
    pub closed spec fn types(&self) -> Set<TypeId> {
        self.entity.types()
    }

    /// Creates a builder without components.
    pub fn new() -> (r: EntityBuilder)
        ensures
            r.types() == Set::<TypeId>::empty(),
    {
        EntityBuilder { entity: Entity::new() }
    }

    /// Adds a component of type `T`, returning `AlreadyExists` if a component
    /// of that type was added before; the builder is then unchanged.
    pub fn add<T: Any>(&mut self, component: T) -> (r: Result<&mut Self, AlreadyExists>)
        ensures
            r is Ok ==> exists|k: TypeId| #[trigger] add_effect(old(self).types(), (*r->Ok_0).types(), k, false),
            r is Err ==> exists|k: TypeId| #[trigger] add_effect(old(self).types(), final(self).types(), k, true),
    {
        let added = self.entity.add(component);
        let ghost k = choose|k: TypeId| #[trigger] add_effect(old(self).entity.types(), self.entity.types(), k, added is Err);
        match added {
            Ok(()) => {
                let r: Result<&mut Self, AlreadyExists> = Ok(self);
                assert(add_effect(old(self).types(), (*r->Ok_0).types(), k, false));
                r
            },
            Err(e) => {
                assert(add_effect(old(self).types(), self.types(), k, true));
                Err(e)
            },
        }
    }

    /// Makes an entity of the collected components, inserts it into `world`
    /// and returns its new id.
    pub fn build(self, world: &mut World) -> (r: EntityId)
        requires
            old(world).ids().len() <= MAX_ENTITIES,
        ensures
            !old(world).issued().contains(r@),
            !old(world).holds(r),
            final(world).issued() == old(world).issued().insert(r@),
            final(world).contents() == old(world).contents().insert(r@, self.types()),
    {
        world.insert(self.entity)
    }
}

} // verus!
