//! The query engine: fluent construction of a component-presence requirement
//! and retrieval of the matching entity set, with typed access to the matched
//! entities' components delegated back to the store.

use vstd::prelude::*;

use crate::component::bitmap_matches;
use crate::component::ComponentManager;
use crate::Component;
use crate::ComponentBitmap;
use crate::ComponentTypeId;
use crate::EcsError;
use crate::EntityId;

verus! {

/// A requirement under construction: starts empty (matching every entity)
/// and grows one registered component type at a time.
pub struct EntityQuery<'a, C> {
    query_bitmap: ComponentBitmap,
    component_manager: &'a ComponentManager<C>,
}

impl<'a, C: Component> EntityQuery<'a, C> {
    /// The store this query will run against.
    pub closed spec fn manager(&self) -> &'a ComponentManager<C> {
        self.component_manager
    }

    /// The requirement bitmap built so far.
    pub closed spec fn requirement(&self) -> u64 {
        self.query_bitmap
    }

    /// A fresh query with an empty — always satisfied — requirement.
    pub fn new(cm: &'a ComponentManager<C>) -> (q: EntityQuery<'a, C>)
        ensures
            q.manager() == cm,
            q.requirement() == 0u64,
    {
        EntityQuery { query_bitmap: 0, component_manager: cm }
    }


    /// The requirement bitmap built so far.
    pub fn query_bitmap(&self) -> (b: ComponentBitmap)
        ensures
            b == self.requirement(),
    {
        self.query_bitmap
    }

    /// Adds one required component type by setting its bit. Requirements
    /// accumulate by bitwise or, so the order of calls cannot matter.
    pub fn with_component(self, ty: ComponentTypeId) -> (q: EntityQuery<'a, C>)
        requires
            self.manager().wf(),
            ty < self.manager().num_types(),
        ensures
            q.manager() == self.manager(),
            q.requirement() == self.requirement() | (1u64 << (ty as u64)),
    {
        let bit = self.component_manager.get_component_bitmap(ty);
        EntityQuery { query_bitmap: self.query_bitmap | bit, component_manager: self.component_manager }
    }

    /// Runs the superset test against every entity of the store and hands
    /// back the matched set, bound to the store for component access.
    pub fn execute(self) -> (r: EntityQueryResult<'a, C>)
        ensures
            r.manager() == self.manager(),
            r.requirement() == self.requirement(),
            r.wf(),
    {
        let entities = self.component_manager.get_entities_with_components(self.query_bitmap);
        EntityQueryResult {
            entities,
            query_bitmap: self.query_bitmap,
            component_manager: self.component_manager,
        }
    }
}

/// The result of a query: the entities whose membership bitmap is a superset
/// of the requirement, in ascending entity order, plus access to their
/// components.
pub struct EntityQueryResult<'a, C> {
    entities: Vec<EntityId>,
    query_bitmap: ComponentBitmap,
    component_manager: &'a ComponentManager<C>,
}

impl<'a, C: Component> EntityQueryResult<'a, C> {
    /// The store this result was drawn from.
    pub closed spec fn manager(&self) -> &'a ComponentManager<C> {
        self.component_manager
    }

    /// The requirement the matched entities satisfy.
    pub closed spec fn requirement(&self) -> u64 {
        self.query_bitmap
    }

    /// The matched entities, in ascending entity order.
    pub closed spec fn matched(&self) -> Seq<EntityId> {
        self.entities@
    }

    /// The result is exactly the matching subset of the store's entities:
    /// sound (every listed entity matches), complete (every matching entity
    /// is listed), and strictly ordered by entity id.
    pub closed spec fn wf(&self) -> bool {
        &&& forall|i: int|
            0 <= i < self.entities@.len() ==> #[trigger] self.entities@[i]
                < self.component_manager.num_entities() && bitmap_matches(
                self.component_manager.entity_bitmap(self.entities@[i] as int),
                self.query_bitmap,
            )
        &&& forall|i: int, j: int|
            0 <= i < j < self.entities@.len() ==> self.entities@[i] < self.entities@[j]
        &&& forall|e: int|
            0 <= e < self.component_manager.num_entities() && bitmap_matches(
                self.component_manager.entity_bitmap(e),
                self.query_bitmap,
            ) ==> self.entities@.contains(e as usize)
    }

    /// The matched entity list.
    pub fn get_entities(&self) -> (r: &Vec<EntityId>)
        ensures
            r@ == self.matched(),
    {
        &self.entities
    }

    /// Shared read of a matched entity's component, delegated to the store.
    pub fn get_component(&self, entity: EntityId, ty: ComponentTypeId) -> (r: Result<&C, EcsError>)
        requires
            self.manager().wf(),
        ensures
            r is Ok <==> self.manager().can_read(entity as int, ty as int),
            r matches Ok(c) ==> *c == self.manager().component_value(entity as int, ty as int),
    {
        self.component_manager.get_component(entity, ty)
    }
}

} // verus!
