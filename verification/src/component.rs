//! The component store: a typed table mapping (component type, entity) to at
//! most one component value, together with the per-entity membership bitmaps
//! that drive the query planner.
//!
//! A component type is registered once and receives the next free bit of the
//! membership bitmap, starting at bit 0; at most 64 types can exist. Every
//! entity owns one slot per type. A slot holds at most one value: attaching a
//! second value is refused. Exclusive mutation is a runtime-checked checkout:
//! `get_component_mut` moves the value out and marks the slot, and any further
//! access to that slot fails with `BorrowConflict` until `return_component`
//! puts a value back. Slots of different entities are fully independent.

use vstd::prelude::*;

use crate::query::EntityQuery;
use crate::Component;
use crate::ComponentBitmap;
use crate::ComponentTypeId;
use crate::EcsError;
use crate::EntityId;

verus! {

/// The fixed width of a membership bitmap, and so the registration limit.
pub const MAX_COMPONENT_TYPES: usize = 64;

/// Whether bit `t` of bitmap `b` is set.
pub open spec fn bit_set(b: u64, t: u64) -> bool {
    b & (1u64 << t) != 0
}

/// The superset test of the query planner: every bit of `req` is set in `b`.
pub open spec fn bitmap_matches(b: u64, req: u64) -> bool {
    b & req == req
}

proof fn lemma_bv_or_self(b: u64, t: u64)
    by (bit_vector)
    requires
        t < 64,
    ensures
        (b | (1u64 << t)) & (1u64 << t) == (1u64 << t),
        (b | (1u64 << t)) & (1u64 << t) != 0,
        (b | (1u64 << t)) & b == b,
{
}

proof fn lemma_bv_or_other(b: u64, t: u64, u: u64)
    by (bit_vector)
    requires
        t < 64,
        u < 64,
        u != t,
    ensures
        ((b | (1u64 << t)) & (1u64 << u)) == (b & (1u64 << u)),
{
}

proof fn lemma_bv_zero_bit(t: u64)
    by (bit_vector)
    ensures
        0u64 & (1u64 << t) == 0u64,
{
}

proof fn lemma_bv_single_bit_matches(b: u64, t: u64)
    by (bit_vector)
    requires
        t < 64,
    ensures
        (b & (1u64 << t) == (1u64 << t)) == (b & (1u64 << t) != 0),
{
}

/// One entity's storage for one component type.
enum Slot<C> {
    /// No value was ever attached.
    Empty,
    /// A value is attached and in place.
    Full(C),
    /// A value is attached but exclusively checked out right now.
    CheckedOut,
}

/// Owns all component data. `C` is the caller's closed component payload
/// type, one Rust value per attached component; which registered type id a
/// payload belongs to is the caller's schema, fixed at registration time.
pub struct ComponentManager<C> {
    /// One membership bitmap per entity, indexed by `EntityId`.
    entities: Vec<u64>,
    /// Row-major slab of slots: entity `e`'s slot for type `t` is at
    /// `e * MAX_COMPONENT_TYPES + t`.
    slots: Vec<Slot<C>>,
    /// How many component types were registered; bits at and above this
    /// position are never set.
    num_component_types: usize,
}

impl<C: Component> ComponentManager<C> {
    /// How many component types were registered so far.
    pub closed spec fn num_types(&self) -> int {
        self.num_component_types as int
    }

    /// How many entities were created so far.
    pub closed spec fn num_entities(&self) -> int {
        self.entities@.len() as int
    }

    /// The membership bitmap of entity `e`.
    pub closed spec fn entity_bitmap(&self, e: int) -> u64 {
        self.entities@[e]
    }

    spec fn slot_at(&self, e: int, t: int) -> Slot<C> {
        self.slots@[e * 64 + t]
    }

    /// Whether a value of type `t` was ever attached to entity `e` (it may
    /// currently be checked out).
    pub closed spec fn has_component(&self, e: int, t: int) -> bool {
        !(self.slot_at(e, t) is Empty)
    }

    /// Whether entity `e`'s slot for type `t` is exclusively checked out.
    pub closed spec fn checked_out(&self, e: int, t: int) -> bool {
        self.slot_at(e, t) is CheckedOut
    }

    /// The value attached to entity `e` for type `t`, when it is in place.
    pub closed spec fn component_value(&self, e: int, t: int) -> C {
        self.slot_at(e, t)->Full_0
    }

    /// Whether a shared read of entity `e`'s slot for type `t` succeeds: the
    /// type is registered, the entity exists, and the value is in place.
    pub open spec fn can_read(&self, e: int, t: int) -> bool {
        &&& 0 <= t < self.num_types()
        &&& 0 <= e < self.num_entities()
        &&& self.has_component(e, t)
        &&& !self.checked_out(e, t)
    }

    /// Every internal consistency property of the store: the slab covers
    /// exactly the created entities, the registration count respects the
    /// bitmap width, unregistered slots are empty, and bit `t` of an entity's
    /// bitmap is set exactly when that entity holds a component of type `t`.
    pub closed spec fn wf(&self) -> bool {
        &&& self.num_component_types <= 64
        &&& self.slots@.len() == 64 * self.entities@.len()
        &&& forall|e: int, t: int|
            0 <= e < self.num_entities() && self.num_types() <= t < 64 ==> !#[trigger] self
                .has_component(e, t)
        &&& forall|e: int, t: int|
            0 <= e < self.num_entities() && 0 <= t < 64 ==> (#[trigger] bit_set(
                self.entity_bitmap(e),
                t as u64,
            ) <==> self.has_component(e, t))
    }

    /// An empty store: no component types, no entities.
    pub fn new() -> (cm: ComponentManager<C>)
        ensures
            cm.wf(),
            cm.num_types() == 0,
            cm.num_entities() == 0,
    {
        ComponentManager { entities: Vec::new(), slots: Vec::new(), num_component_types: 0 }
    }


    /// Computes the slab position of entity `entity`'s slot for type `ty`.
    fn slot_index(&self, entity: EntityId, ty: ComponentTypeId) -> (idx: usize)
        requires
            self.wf(),
            entity < self.num_entities(),
            ty < 64,
        ensures
            idx == entity * 64 + ty,
            idx < self.slots@.len(),
    {
        let total = self.slots.len();
        proof {
            assert(entity * 64 + ty < 64 * self.entities@.len());
        }
        entity * MAX_COMPONENT_TYPES + ty
    }


    /// How many component types are registered.
    pub fn component_type_count(&self) -> (n: usize)
        ensures
            n == self.num_types(),
    {
        self.num_component_types
    }

    /// How many entities were created.
    pub fn entity_count(&self) -> (n: usize)
        ensures
            n == self.num_entities(),
    {
        self.entities.len()
    }

    /// Registers the next component type and hands back its id, which is also
    /// the position of its bit: the k-th registration, counting from zero,
    /// owns bit `k`. Fails exactly when all 64 bits are taken; nothing
    /// changes then.
    pub fn register_component(&mut self) -> (r: Result<ComponentTypeId, EcsError>)
        requires
            old(self).wf(),
        ensures
            final(self).wf(),
            r is Ok <==> old(self).num_types() < 64,
            r matches Ok(t) ==> {
                &&& t == old(self).num_types()
                &&& final(self).num_types() == old(self).num_types() + 1
            },
            r matches Err(err) ==> err == EcsError::TooManyComponentTypes && *final(self) == *old(self),
            final(self).num_entities() == old(self).num_entities(),
            forall|e: int, t: int|
                #![all_triggers]
                0 <= e < old(self).num_entities() && 0 <= t < 64 ==> {
                    &&& final(self).has_component(e, t) == old(self).has_component(e, t)
                    &&& final(self).checked_out(e, t) == old(self).checked_out(e, t)
                    &&& final(self).component_value(e, t) == old(self).component_value(e, t)
                },
            forall|e: int|
                0 <= e < old(self).num_entities() ==> final(self).entity_bitmap(e) == old(self).entity_bitmap(e),
    {
        if self.num_component_types >= MAX_COMPONENT_TYPES {
            return Err(EcsError::TooManyComponentTypes);
        }
        let id = self.num_component_types;
        self.num_component_types = self.num_component_types + 1;
        proof {
            assert forall|e: int, t: int|
                #![all_triggers]
                0 <= e < self.num_entities() && 0 <= t < 64 implies {
                    &&& self.has_component(e, t) == old(self).has_component(e, t)
                    &&& self.checked_out(e, t) == old(self).checked_out(e, t)
                    &&& self.component_value(e, t) == old(self).component_value(e, t)
                } by {
                assert(self.slot_at(e, t) == old(self).slot_at(e, t));
            }
            assert forall|e: int, t: int|
                0 <= e < old(self).num_entities() && 0 <= t < 64 implies #[trigger] bit_set(
                self.entity_bitmap(e),
                t as u64,
            ) == bit_set(old(self).entity_bitmap(e), t as u64) by {
                assert(self.entity_bitmap(e) == old(self).entity_bitmap(e));
            }
            assert(self.wf());
        }
        Ok(id)
    }

    /// The bitmap with exactly the registered type `ty`'s bit set. The k-th
    /// registered type's bit equals `1 << k`. Asking for an unregistered type
    /// is a contract violation, ruled out by the precondition.
    pub fn get_component_bitmap(&self, ty: ComponentTypeId) -> (b: ComponentBitmap)
        requires
            self.wf(),
            ty < self.num_types(),
        ensures
            b == (1u64 << (ty as u64)),
    {
        1u64 << (ty as u64)
    }

    /// Creates a fresh entity: its id is the next dense index, its membership
    /// bitmap starts at zero, and it owns an empty slot for every component
    /// type. Fails exactly when no component type was registered yet (there
    /// is no column such an entity could ever fill); nothing changes then.
    pub fn add_entity(&mut self) -> (r: Result<EntityId, EcsError>)
        requires
            old(self).wf(),
        ensures
            final(self).wf(),
            r is Ok <==> old(self).num_types() > 0,
            r matches Ok(e) ==> {
                &&& e == old(self).num_entities()
                &&& final(self).num_entities() == old(self).num_entities() + 1
                &&& final(self).entity_bitmap(e as int) == 0u64
                &&& forall|t: int| 0 <= t < 64 ==> !#[trigger] final(self).has_component(e as int, t)
            },
            r matches Err(err) ==> err == EcsError::NoComponentTypes && *final(self) == *old(self),
            final(self).num_types() == old(self).num_types(),
            forall|e: int, t: int|
                #![all_triggers]
                0 <= e < old(self).num_entities() && 0 <= t < 64 ==> {
                    &&& final(self).has_component(e, t) == old(self).has_component(e, t)
                    &&& final(self).checked_out(e, t) == old(self).checked_out(e, t)
                    &&& final(self).component_value(e, t) == old(self).component_value(e, t)
                },
            forall|e: int|
                0 <= e < old(self).num_entities() ==> final(self).entity_bitmap(e) == old(self).entity_bitmap(e),
    {
        if self.num_component_types == 0 {
            return Err(EcsError::NoComponentTypes);
        }
        let id = self.entities.len();
        let mut i: usize = 0;
        while i < MAX_COMPONENT_TYPES
            invariant
                i <= 64,
                self.entities@ == old(self).entities@,
                self.num_component_types == old(self).num_component_types,
                self.slots@.len() == 64 * self.entities@.len() + i,
                forall|j: int|
                    0 <= j < 64 * self.entities@.len() ==> self.slots@[j] == old(self).slots@[j],
                forall|j: int|
                    64 * self.entities@.len() <= j < self.slots@.len() ==> self.slots@[j] is Empty,
            decreases 64 - i,
        {
            self.slots.push(Slot::Empty);
            i = i + 1;
        }
        self.entities.push(0u64);
        proof {
            let ghost ne = old(self).num_entities();
            assert(self.num_entities() == ne + 1);
            assert(self.entities@[ne] == 0u64);
            assert forall|e: int, t: int|
                #![all_triggers]
                0 <= e < ne && 0 <= t < 64 implies {
                    &&& self.has_component(e, t) == old(self).has_component(e, t)
                    &&& self.checked_out(e, t) == old(self).checked_out(e, t)
                    &&& self.component_value(e, t) == old(self).component_value(e, t)
                } by {
                assert(0 <= e * 64 + t < 64 * ne);
                assert(self.slot_at(e, t) == old(self).slot_at(e, t));
            }
            assert forall|t: int| 0 <= t < 64 implies !self.has_component(ne, t) by {
                assert(64 * ne <= ne * 64 + t < 64 * ne + 64);
                assert(self.slots@[ne * 64 + t] is Empty);
            }
            assert forall|t: int| 0 <= t < 64 implies !(#[trigger] bit_set(
                self.entity_bitmap(ne),
                t as u64,
            )) by {
                lemma_bv_zero_bit(t as u64);
            }
            assert forall|e: int, t: int|
                0 <= e < ne && 0 <= t < 64 implies #[trigger] bit_set(
                self.entity_bitmap(e),
                t as u64,
            ) == bit_set(old(self).entity_bitmap(e), t as u64) by {
                assert(self.entity_bitmap(e) == old(self).entity_bitmap(e));
            }
            assert(self.wf());
        }
        Ok(id)
    }

    /// Attaches a component value of registered type `ty` to `entity` and
    /// sets the type's bit in the entity's membership bitmap, so that the
    /// entity matches every requirement this type is part of from now on.
    /// Fails, changing nothing, when the type was never registered, when the
    /// entity does not exist, or when the slot already holds a value — a
    /// slot is filled at most once, there is no silent overwrite.
    pub fn add_component(&mut self, entity: EntityId, ty: ComponentTypeId, component: C) -> (r:
        Result<(), EcsError>)
        requires
            old(self).wf(),
        ensures
            final(self).wf(),
            r is Ok <==> {
                &&& ty < old(self).num_types()
                &&& entity < old(self).num_entities()
                &&& !old(self).has_component(entity as int, ty as int)
            },
            r is Ok ==> {
                &&& final(self).has_component(entity as int, ty as int)
                &&& !final(self).checked_out(entity as int, ty as int)
                &&& final(self).component_value(entity as int, ty as int) == component
                &&& final(self).entity_bitmap(entity as int) == old(self).entity_bitmap(
                    entity as int,
                ) | (1u64 << (ty as u64))
                &&& bitmap_matches(final(self).entity_bitmap(entity as int), 1u64 << (ty as u64))
            },
            r matches Err(err) ==> *final(self) == *old(self) && err == (if ty >= old(self).num_types() {
                EcsError::NotRegistered
            } else if entity >= old(self).num_entities() {
                EcsError::NoSuchEntity
            } else {
                EcsError::AlreadyAttached
            }),
            final(self).num_types() == old(self).num_types(),
            final(self).num_entities() == old(self).num_entities(),
            forall|e: int, t: int|
                #![all_triggers]
                0 <= e < old(self).num_entities() && 0 <= t < 64 && (e != entity as int || t
                    != ty as int) ==> {
                    &&& final(self).has_component(e, t) == old(self).has_component(e, t)
                    &&& final(self).checked_out(e, t) == old(self).checked_out(e, t)
                    &&& final(self).component_value(e, t) == old(self).component_value(e, t)
                },
            forall|e: int|
                0 <= e < old(self).num_entities() && e != entity as int ==> final(self).entity_bitmap(e)
                    == old(self).entity_bitmap(e),
    {
        if ty >= self.num_component_types {
            return Err(EcsError::NotRegistered);
        }
        if entity >= self.entities.len() {
            return Err(EcsError::NoSuchEntity);
        }
        let idx = self.slot_index(entity, ty);
        match &self.slots[idx] {
            Slot::Empty => {},
            _ => {
                return Err(EcsError::AlreadyAttached);
            },
        }
        self.slots[idx] = Slot::Full(component);
        let bit = 1u64 << (ty as u64);
        let new_bitmap = self.entities[entity] | bit;
        self.entities[entity] = new_bitmap;
        proof {
            let ghost b = old(self).entity_bitmap(entity as int);
            let ghost t = ty as u64;
            lemma_bv_or_self(b, t);
            assert(self.entity_bitmap(entity as int) == (b | (1u64 << t)));
            assert forall|tt: int| 0 <= tt < 64 implies (#[trigger] bit_set(
                self.entity_bitmap(entity as int),
                tt as u64,
            ) <==> self.has_component(entity as int, tt)) by {
                if tt == ty as int {
                    assert(bit_set(b | (1u64 << t), t));
                    assert(self.has_component(entity as int, tt));
                } else {
                    assert(tt as u64 != t);
                    lemma_bv_or_other(b, t, tt as u64);
                    assert(bit_set(self.entity_bitmap(entity as int), tt as u64) == bit_set(
                        b,
                        tt as u64,
                    ));
                    assert(self.slot_at(entity as int, tt) == old(self).slot_at(
                        entity as int,
                        tt,
                    ));
                    assert(self.has_component(entity as int, tt) == old(self).has_component(
                        entity as int,
                        tt,
                    ));
                    assert(bit_set(old(self).entity_bitmap(entity as int), tt as u64) <==> old(
                        self,
                    ).has_component(entity as int, tt));
                }
            }
            assert forall|e: int, tt: int|
                #![all_triggers]
                0 <= e < self.num_entities() && 0 <= tt < 64 && (e != entity as int || tt
                    != ty as int) implies {
                    &&& self.has_component(e, tt) == old(self).has_component(e, tt)
                    &&& self.checked_out(e, tt) == old(self).checked_out(e, tt)
                    &&& self.component_value(e, tt) == old(self).component_value(e, tt)
                } by {
                assert(e * 64 + tt != entity * 64 + ty);
                assert(self.slot_at(e, tt) == old(self).slot_at(e, tt));
            }
            assert(self.entity_bitmap(entity as int) == (b | (1u64 << t)));
            assert(bit_set(self.entity_bitmap(entity as int), t));
            assert forall|e: int, tt: int|
                0 <= e < old(self).num_entities() && 0 <= tt < 64 && e != entity as int implies
                #[trigger] bit_set(self.entity_bitmap(e), tt as u64) == bit_set(
                old(self).entity_bitmap(e),
                tt as u64,
            ) by {
                assert(self.entity_bitmap(e) == old(self).entity_bitmap(e));
            }
            assert(self.wf());
        }
        Ok(())
    }

    /// A shared read of `entity`'s component of type `ty`. Succeeds exactly
    /// when the type is registered, the entity exists, and the value is in
    /// place; while the slot is exclusively checked out the read fails with
    /// `BorrowConflict` instead of observing a value that is being replaced.
    pub fn get_component(&self, entity: EntityId, ty: ComponentTypeId) -> (r: Result<
        &C,
        EcsError,
    >)
        requires
            self.wf(),
        ensures
            r is Ok <==> self.can_read(entity as int, ty as int),
            r matches Ok(c) ==> *c == self.component_value(entity as int, ty as int),
            r matches Err(err) ==> err == (if ty >= self.num_types() {
                EcsError::NotRegistered
            } else if entity >= self.num_entities() {
                EcsError::NoSuchEntity
            } else if !self.has_component(entity as int, ty as int) {
                EcsError::MissingComponent
            } else {
                EcsError::BorrowConflict
            }),
    {
        if ty >= self.num_component_types {
            return Err(EcsError::NotRegistered);
        }
        if entity >= self.entities.len() {
            return Err(EcsError::NoSuchEntity);
        }
        let idx = self.slot_index(entity, ty);
        match &self.slots[idx] {
            Slot::Empty => Err(EcsError::MissingComponent),
            Slot::CheckedOut => Err(EcsError::BorrowConflict),
            Slot::Full(c) => Ok(c),
        }
    }

    /// Exclusively checks out `entity`'s component of type `ty`: the value
    /// moves to the caller and the slot is marked until `return_component`
    /// puts a value back. A second checkout of the same slot, or a shared
    /// read of it, fails with `BorrowConflict` while the first is live; every
    /// other slot — in particular the same component type of any other
    /// entity — is untouched and stays exactly as accessible as before.
    pub fn get_component_mut(&mut self, entity: EntityId, ty: ComponentTypeId) -> (r: Result<
        C,
        EcsError,
    >)
        requires
            old(self).wf(),
        ensures
            final(self).wf(),
            r is Ok <==> old(self).can_read(entity as int, ty as int),
            r matches Ok(c) ==> {
                &&& c == old(self).component_value(entity as int, ty as int)
                &&& final(self).checked_out(entity as int, ty as int)
                &&& final(self).has_component(entity as int, ty as int)
            },
            r matches Err(err) ==> *final(self) == *old(self) && err == (if ty >= old(self).num_types() {
                EcsError::NotRegistered
            } else if entity >= old(self).num_entities() {
                EcsError::NoSuchEntity
            } else if !old(self).has_component(entity as int, ty as int) {
                EcsError::MissingComponent
            } else {
                EcsError::BorrowConflict
            }),
            final(self).num_types() == old(self).num_types(),
            final(self).num_entities() == old(self).num_entities(),
            forall|e: int, t: int|
                #![all_triggers]
                0 <= e < old(self).num_entities() && 0 <= t < 64 && (e != entity as int || t
                    != ty as int) ==> {
                    &&& final(self).has_component(e, t) == old(self).has_component(e, t)
                    &&& final(self).checked_out(e, t) == old(self).checked_out(e, t)
                    &&& final(self).component_value(e, t) == old(self).component_value(e, t)
                    &&& final(self).can_read(e, t) == old(self).can_read(e, t)
                },
            forall|e: int|
                0 <= e < old(self).num_entities() ==> final(self).entity_bitmap(e) == old(self).entity_bitmap(e),
    {
        if ty >= self.num_component_types {
            return Err(EcsError::NotRegistered);
        }
        if entity >= self.entities.len() {
            return Err(EcsError::NoSuchEntity);
        }
        let idx = self.slot_index(entity, ty);
        match &self.slots[idx] {
            Slot::Empty => {
                return Err(EcsError::MissingComponent);
            },
            Slot::CheckedOut => {
                return Err(EcsError::BorrowConflict);
            },
            Slot::Full(_) => {},
        }
        let mut taken = Slot::CheckedOut;
        std::mem::swap(&mut taken, &mut self.slots[idx]);
        proof {
            assert forall|e: int, tt: int|
                #![all_triggers]
                0 <= e < self.num_entities() && 0 <= tt < 64 && (e != entity as int || tt
                    != ty as int) implies {
                    &&& self.has_component(e, tt) == old(self).has_component(e, tt)
                    &&& self.checked_out(e, tt) == old(self).checked_out(e, tt)
                    &&& self.component_value(e, tt) == old(self).component_value(e, tt)
                } by {
                assert(e * 64 + tt != entity * 64 + ty);
                assert(self.slot_at(e, tt) == old(self).slot_at(e, tt));
            }
            assert forall|e: int, t: int|
                0 <= e < old(self).num_entities() && 0 <= t < 64 implies #[trigger] bit_set(
                self.entity_bitmap(e),
                t as u64,
            ) == bit_set(old(self).entity_bitmap(e), t as u64) by {
                assert(self.entity_bitmap(e) == old(self).entity_bitmap(e));
            }
            assert(self.wf());
        }
        match taken {
            Slot::Full(c) => Ok(c),
            _ => Err(EcsError::MissingComponent),
        }
    }

    /// Ends an exclusive checkout by putting a value back into the slot.
    /// Succeeds exactly when the slot is currently checked out; afterwards
    /// the slot holds `component` and is readable again. Fails, changing
    /// nothing, on an unregistered type, an unknown entity, or a slot that
    /// was not checked out.
    pub fn return_component(&mut self, entity: EntityId, ty: ComponentTypeId, component: C) -> (r:
        Result<(), EcsError>)
        requires
            old(self).wf(),
        ensures
            final(self).wf(),
            r is Ok <==> {
                &&& ty < old(self).num_types()
                &&& entity < old(self).num_entities()
                &&& old(self).checked_out(entity as int, ty as int)
            },
            r is Ok ==> {
                &&& final(self).has_component(entity as int, ty as int)
                &&& !final(self).checked_out(entity as int, ty as int)
                &&& final(self).component_value(entity as int, ty as int) == component
            },
            r matches Err(err) ==> *final(self) == *old(self) && err == (if ty >= old(self).num_types() {
                EcsError::NotRegistered
            } else if entity >= old(self).num_entities() {
                EcsError::NoSuchEntity
            } else {
                EcsError::BorrowConflict
            }),
            final(self).num_types() == old(self).num_types(),
            final(self).num_entities() == old(self).num_entities(),
            forall|e: int, t: int|
                #![all_triggers]
                0 <= e < old(self).num_entities() && 0 <= t < 64 && (e != entity as int || t
                    != ty as int) ==> {
                    &&& final(self).has_component(e, t) == old(self).has_component(e, t)
                    &&& final(self).checked_out(e, t) == old(self).checked_out(e, t)
                    &&& final(self).component_value(e, t) == old(self).component_value(e, t)
                },
            forall|e: int|
                0 <= e < old(self).num_entities() ==> final(self).entity_bitmap(e) == old(self).entity_bitmap(e),
    {
        if ty >= self.num_component_types {
            return Err(EcsError::NotRegistered);
        }
        if entity >= self.entities.len() {
            return Err(EcsError::NoSuchEntity);
        }
        let idx = self.slot_index(entity, ty);
        match &self.slots[idx] {
            Slot::CheckedOut => {},
            _ => {
                return Err(EcsError::BorrowConflict);
            },
        }
        self.slots[idx] = Slot::Full(component);
        proof {
            assert forall|e: int, tt: int|
                #![all_triggers]
                0 <= e < self.num_entities() && 0 <= tt < 64 && (e != entity as int || tt
                    != ty as int) implies {
                    &&& self.has_component(e, tt) == old(self).has_component(e, tt)
                    &&& self.checked_out(e, tt) == old(self).checked_out(e, tt)
                    &&& self.component_value(e, tt) == old(self).component_value(e, tt)
                } by {
                assert(e * 64 + tt != entity * 64 + ty);
                assert(self.slot_at(e, tt) == old(self).slot_at(e, tt));
            }
            assert forall|e: int, t: int|
                0 <= e < old(self).num_entities() && 0 <= t < 64 implies #[trigger] bit_set(
                self.entity_bitmap(e),
                t as u64,
            ) == bit_set(old(self).entity_bitmap(e), t as u64) by {
                assert(self.entity_bitmap(e) == old(self).entity_bitmap(e));
            }
            assert(self.wf());
        }
        Ok(())
    }

    /// All entities whose membership bitmap is a superset of
    /// `component_bitmap`, in ascending entity order: an entity matches
    /// exactly when `bitmap & requirement == requirement`, so entities
    /// carrying additional unrelated components still match.
    pub fn get_entities_with_components(&self, component_bitmap: ComponentBitmap) -> (r: Vec<
        EntityId,
    >)
        ensures
            forall|i: int|
                0 <= i < r@.len() ==> #[trigger] r@[i] < self.num_entities() && bitmap_matches(
                    self.entity_bitmap(r@[i] as int),
                    component_bitmap,
                ),
            forall|i: int, j: int| 0 <= i < j < r@.len() ==> r@[i] < r@[j],
            forall|e: int|
                0 <= e < self.num_entities() && bitmap_matches(
                    self.entity_bitmap(e),
                    component_bitmap,
                ) ==> r@.contains(e as usize),
    {
        let mut result: Vec<EntityId> = Vec::new();
        let n = self.entities.len();
        let mut e: usize = 0;
        while e < n
            invariant
                e <= n,
                n == self.num_entities(),
                forall|i: int|
                    0 <= i < result@.len() ==> #[trigger] result@[i] < e && bitmap_matches(
                        self.entity_bitmap(result@[i] as int),
                        component_bitmap,
                    ),
                forall|i: int, j: int| 0 <= i < j < result@.len() ==> result@[i] < result@[j],
                forall|e2: int|
                    0 <= e2 < e && bitmap_matches(self.entity_bitmap(e2), component_bitmap)
                        ==> result@.contains(e2 as usize),
            decreases n - e,
        {
            let ghost prev = result@;
            if self.entities[e] & component_bitmap == component_bitmap {
                result.push(e);
            }
            proof {
                if self.entities@[e as int] & component_bitmap == component_bitmap {
                    assert(result@ == prev.push(e));
                    assert(result@[prev.len() as int] == e);
                    assert(result@.contains(e));
                }
                assert forall|e2: int|
                    0 <= e2 < e + 1 && bitmap_matches(
                        self.entity_bitmap(e2),
                        component_bitmap,
                    ) implies result@.contains(e2 as usize) by {
                    if e2 < e {
                        let i = choose|i: int| 0 <= i < prev.len() && prev[i] == e2 as usize;
                        assert(result@[i] == e2 as usize);
                    } else {
                        assert(result@[result@.len() - 1] == e);
                    }
                }
            }
            e = e + 1;
        }
        result
    }

    /// All entities that currently hold a component of registered type `ty`,
    /// in ascending entity order. Asking for an unregistered type fails.
    pub fn get_all_by_type(&self, ty: ComponentTypeId) -> (r: Result<Vec<EntityId>, EcsError>)
        requires
            self.wf(),
        ensures
            r is Ok <==> ty < self.num_types(),
            r matches Ok(v) ==> {
                &&& forall|i: int|
                    0 <= i < v@.len() ==> #[trigger] v@[i] < self.num_entities()
                        && self.has_component(v@[i] as int, ty as int)
                &&& forall|i: int, j: int| 0 <= i < j < v@.len() ==> v@[i] < v@[j]
                &&& forall|e: int|
                    0 <= e < self.num_entities() && self.has_component(e, ty as int) ==> v@.contains(
                        e as usize,
                    )
            },
            r matches Err(err) ==> err == EcsError::NotRegistered,
    {
        if ty >= self.num_component_types {
            return Err(EcsError::NotRegistered);
        }
        let bit = 1u64 << (ty as u64);
        let v = self.get_entities_with_components(bit);
        proof {
            let t = ty as u64;
            assert forall|e: int| 0 <= e < self.num_entities() implies bitmap_matches(
                self.entity_bitmap(e),
                1u64 << t,
            ) == self.has_component(e, ty as int) by {
                lemma_bv_single_bit_matches(self.entity_bitmap(e), t);
                assert(bit_set(self.entity_bitmap(e), t) == self.has_component(e, ty as int));
            }
        }
        Ok(v)
    }

    /// Starts a fluent query against this store.
    pub fn query(&self) -> (q: EntityQuery<'_, C>)
        ensures
            q.manager() == self,
            q.requirement() == 0u64,
    {
        EntityQuery::new(self)
    }
}

/// The superset law behind the query planner, stated per required type: if an
/// entity's bitmap matches requirement `req`, then for every type bit set in
/// `req` the entity actually holds a component of that type — however many
/// further components it carries besides.
pub proof fn lemma_match_gives_component<C: Component>(
    cm: &ComponentManager<C>,
    e: int,
    ty: int,
    req: u64,
)
    requires
        cm.wf(),
        0 <= e < cm.num_entities(),
        0 <= ty < 64,
        bitmap_matches(cm.entity_bitmap(e), req),
        bit_set(req, ty as u64),
    ensures
        cm.has_component(e, ty),
        bit_set(cm.entity_bitmap(e), ty as u64),
{
    let b = cm.entity_bitmap(e);
    let t = ty as u64;
    assert(b & (1u64 << t) != 0) by (bit_vector)
        requires
            b & req == req,
            req & (1u64 << t) != 0,
    ;
    assert(bit_set(cm.entity_bitmap(e), ty as u64));
}


/// Borrow exclusivity, per slot: while entity `e`'s component of type `t` is
/// exclusively checked out, no read of that slot can succeed — and only that
/// slot is affected: any other slot, in particular the same component type
/// of any other entity, reads exactly as its own state allows.
pub proof fn lemma_borrow_exclusive<C: Component>(cm: &ComponentManager<C>, e: int, t: int)
    requires
        cm.checked_out(e, t),
    ensures
        !cm.can_read(e, t),
{
}

/// Monotonicity of matching: a bitmap that is a superset of another matches
/// every requirement the smaller one matches. This is why attaching further
/// components to an entity never removes it from a query's result.
pub proof fn lemma_superset_still_matches(bigger: u64, smaller: u64, req: u64)
    requires
        bitmap_matches(smaller, req),
        bigger & smaller == smaller,
    ensures
        bitmap_matches(bigger, req),
{
    assert(bigger & req == req) by (bit_vector)
        requires
            smaller & req == req,
            bigger & smaller == smaller,
    ;
}

/// Attaching one more component only grows a membership bitmap: the new
/// bitmap is a superset of the old one, so every requirement matched before
/// is still matched.
pub proof fn lemma_attach_grows_bitmap(b: u64, t: u64)
    requires
        t < 64,
    ensures
        (b | (1u64 << t)) & b == b,
        bit_set(b | (1u64 << t), t),
{
    lemma_bv_or_self(b, t);
}

} // verus!
