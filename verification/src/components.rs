//! The scene's component kinds, and the closed payload union the scene's
//! store carries. Each component is plain data attached to exactly one
//! entity; the store itself is generic, so which registered type id holds
//! which kind is fixed by the scene at registration time.

use vstd::prelude::*;

use crate::asset_manager::AssetHandle;
use crate::geometry::RatPoint;
use crate::geometry::Vec3;
use crate::transform::Transform;
use crate::Component;
use crate::EntityId;

verus! {

/// Where an animation stands, in integer ticks since it started.
#[derive(Clone, Copy, PartialEq, Eq, Structural, Debug)]
pub struct AnimationState {
    /// The tick the animation started at.
    pub start_ticks: u64,
    /// The tick the animation has reached.
    pub current_ticks: u64,
    /// Which of the model's animations is playing.
    pub index: usize,
}

impl AnimationState {
    /// A fresh animation at its start: no time has passed yet.
    pub fn new(index: usize) -> (a: AnimationState)
        ensures
            a.start_ticks == 0,
            a.current_ticks == a.start_ticks,
            a.index == index,
    {
        AnimationState { start_ticks: 0, current_ticks: 0, index }
    }

    /// Advances the animation by `delta` ticks.
    pub fn advance(&mut self, delta: u64)
        requires
            old(self).current_ticks + delta <= u64::MAX,
        ensures
            final(self).current_ticks == old(self).current_ticks + delta,
            final(self).start_ticks == old(self).start_ticks,
            final(self).index == old(self).index,
    {
        self.current_ticks = self.current_ticks + delta;
    }
}

/// Marks an entity as drawable and pickable: which asset holds its geometry,
/// and where its animation stands.
#[derive(Clone, Copy, PartialEq, Eq, Structural, Debug)]
pub struct Model {
    /// The asset cache handle of the entity's geometry.
    pub asset_handle: AssetHandle,
    /// The entity's animation, when one is playing.
    pub animation: Option<AnimationState>,
}

/// A motion: a direction, how fast, and how quickly it dies off.
#[derive(Clone, Copy, PartialEq, Eq, Structural, Debug)]
pub struct Velocity {
    /// The direction of motion.
    pub direction: Vec3,
    /// Speed along the direction, in world units per tick.
    pub speed: i64,
    /// How much of the speed survives each tick.
    pub decay: i64,
}

/// A standing order to walk towards a target point.
#[derive(Clone, Copy, PartialEq, Eq, Structural, Debug)]
pub struct WalkTo {
    /// Where to walk to, if anywhere.
    pub target: Option<Vec3>,
    /// Walking speed, in world units per tick.
    pub speed: i64,
}

impl WalkTo {
    /// A walk order with the given target and speed.
    pub fn new(target: Option<Vec3>, speed: i64) -> (w: WalkTo)
        ensures
            w.target == target,
            w.speed == speed,
    {
        WalkTo { target, speed }
    }
}

/// Click-to-move state: where the last accepted click asks the entity to go.
#[derive(Clone, Copy, PartialEq, Eq, Structural, Debug)]
pub struct ClickMove {
    /// The world-space point to move to, once a click has picked one.
    pub target: Option<RatPoint>,
    /// Movement speed, in world units per tick.
    pub speed: i64,
}

impl ClickMove {
    /// A click-to-move component with no target yet.
    pub fn new(speed: i64) -> (c: ClickMove)
        ensures
            c.target is None,
            c.speed == speed,
    {
        ClickMove { target: None, speed }
    }
}

/// The last click: where on the screen it landed, what it struck in the
/// world, and which entity that was.
#[derive(Clone, Copy, PartialEq, Eq, Structural, Debug)]
pub struct Click {
    /// Screen x coordinate of the click.
    pub screen_x: i64,
    /// Screen y coordinate of the click.
    pub screen_y: i64,
    /// The world-space point the click struck.
    pub world_pos: RatPoint,
    /// The entity the click struck, if any.
    pub target: Option<EntityId>,
}

/// Tags an entity's geometry as a floor that other entities stand on and
/// walk across.
#[derive(Clone, Copy, PartialEq, Eq, Structural, Debug)]
pub struct WalkableSurface;

/// The closed union of the scene's component kinds: what a scene's
/// `ComponentManager` stores, one variant per registered component type.
#[derive(Clone, Copy, PartialEq, Eq, Structural, Debug)]
pub enum SceneComponent {
    /// Placement in the world.
    Transform(Transform),
    /// Drawable, pickable geometry.
    Model(Model),
    /// Plain motion.
    Velocity(Velocity),
    /// A walk order.
    WalkTo(WalkTo),
    /// Click-to-move state.
    ClickMove(ClickMove),
    /// The last click.
    Click(Click),
    /// A walkable floor tag.
    WalkableSurface(WalkableSurface),
}

impl Component for SceneComponent {

}

impl SceneComponent {
    /// The transform inside, when this is a transform component.
    pub fn as_transform(&self) -> (r: Option<&Transform>)
        ensures
            r is Some <==> self is Transform,
            r matches Some(t) ==> *t == self->Transform_0,
    {
        match self {
            SceneComponent::Transform(t) => Some(t),
            _ => None,
        }
    }

    /// The model component inside, when this is a model component.
    pub fn as_model(&self) -> (r: Option<&Model>)
        ensures
            r is Some <==> self is Model,
            r matches Some(m) ==> *m == self->Model_0,
    {
        match self {
            SceneComponent::Model(m) => Some(m),
            _ => None,
        }
    }
}

} // verus!
