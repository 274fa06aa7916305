//! An entity/component scene runtime: a bitmask-indexed component store with a
//! query planner, handle-addressed resource and asset caches, and an exact
//! integer-arithmetic ray/triangle picking engine that consumes them.

use vstd::prelude::*;

pub mod asset_manager;
pub mod component;
pub mod components;
pub mod geometry;
pub mod mesh;
pub mod pick;
pub mod query;
pub mod ray;
pub mod resource;
pub mod transform;

verus! {

/// Identifies a live entity: a dense index into the store's entity table.
pub type EntityId = usize;

/// Identifies a registered component type: its registration index, which is
/// also the position of its bit in every entity's membership bitmap.
pub type ComponentTypeId = usize;

/// One bit per registered component type, in registration order.
pub type ComponentBitmap = u64;

/// Marker for types that can be stored as component payloads.
pub trait Component {}

/// How a store operation failed. Every variant is a contract violation on the
/// caller's side; the store reports it instead of corrupting its tables.
#[derive(Clone, Copy, PartialEq, Eq, Structural, Debug)]
pub enum EcsError {
    /// The component type id was never registered.
    NotRegistered,
    /// The registration limit of 64 component types was already reached.
    TooManyComponentTypes,
    /// No entity may be created before the first component type is registered.
    NoComponentTypes,
    /// The entity id does not name a created entity.
    NoSuchEntity,
    /// The entity holds no value of the requested component type.
    MissingComponent,
    /// The slot already holds a value of this component type.
    AlreadyAttached,
    /// The slot is exclusively checked out, or was never checked out when a
    /// check-in was attempted.
    BorrowConflict,
}

} // verus!
