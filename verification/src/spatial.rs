//! Where the source and the listener are.
//!
//! The update tick writes a [`SpatialState`]; the renderer reads one at each
//! frame boundary. The state guards what the binaural effect is fed: the
//! stored direction never holds a NaN, and it is the zero vector whenever the
//! source sits exactly on the listener.

use vstd::prelude::*;
use crate::sample::{
    check_nan, check_same_number, is_nan, lemma_zero_bits, same_number, NEG_ONE, ONE, ZERO,
};

verus! {

/// Three coordinates, each a binary32 bit pattern.
#[derive(Clone, Copy, PartialEq, Eq, Structural, Debug)]
pub struct Vec3 {
    pub x: u32,
    pub y: u32,
    pub z: u32,
}

impl Vec3 {
    /// `(0, 0, 0)`.
    pub open spec fn zero() -> Vec3 {
        Vec3 { x: ZERO, y: ZERO, z: ZERO }
    }

    /// The first axis, `(1, 0, 0)`.
    pub open spec fn unit_x() -> Vec3 {
        Vec3 { x: ONE, y: ZERO, z: ZERO }
    }

    /// The second axis, `(0, 1, 0)`.
    pub open spec fn unit_y() -> Vec3 {
        Vec3 { x: ZERO, y: ONE, z: ZERO }
    }

    /// The third axis reversed, `(0, 0, -1)`.
    pub open spec fn neg_unit_z() -> Vec3 {
        Vec3 { x: ZERO, y: ZERO, z: NEG_ONE }
    }

    /// Whether any coordinate is a NaN.
    pub open spec fn has_nan(self) -> bool {
        is_nan(self.x) || is_nan(self.y) || is_nan(self.z)
    }

    /// Whether the two vectors name the same point: coordinate by coordinate
    /// the same number.
    pub open spec fn coincides(self, other: Vec3) -> bool {
        same_number(self.x, other.x) && same_number(self.y, other.y) && same_number(
            self.z,
            other.z,
        )
    }

    pub fn new(x: u32, y: u32, z: u32) -> (v: Vec3)
        ensures
            v == (Vec3 { x, y, z }),
    {
        Vec3 { x, y, z }
    }

    pub fn origin() -> (v: Vec3)
        ensures
            v == Vec3::zero(),
    {
        Vec3 { x: ZERO, y: ZERO, z: ZERO }
    }

    pub fn contains_nan(&self) -> (r: bool)
        ensures
            r == self.has_nan(),
    {
        check_nan(self.x) || check_nan(self.y) || check_nan(self.z)
    }

    pub fn same_point(&self, other: &Vec3) -> (r: bool)
        ensures
            r == self.coincides(*other),
    {
        check_same_number(self.x, other.x) && check_same_number(self.y, other.y)
            && check_same_number(self.z, other.z)
    }
}

/// A position with the three axes of a frame of reference.
#[derive(Clone, Copy, PartialEq, Eq, Structural, Debug)]
pub struct Orientation {
    pub right: Vec3,
    pub up: Vec3,
    pub ahead: Vec3,
    pub origin: Vec3,
}

impl Orientation {
    /// At the origin, looking down the negative third axis.
    pub open spec fn identity() -> Orientation {
        Orientation {
            right: Vec3::unit_x(),
            up: Vec3::unit_y(),
            ahead: Vec3::neg_unit_z(),
            origin: Vec3::zero(),
        }
    }

    pub fn standard() -> (o: Orientation)
        ensures
            o == Orientation::identity(),
    {
        Orientation {
            right: Vec3 { x: ONE, y: ZERO, z: ZERO },
            up: Vec3 { x: ZERO, y: ONE, z: ZERO },
            ahead: Vec3 { x: ZERO, y: ZERO, z: NEG_ONE },
            origin: Vec3 { x: ZERO, y: ZERO, z: ZERO },
        }
    }
}

/// What one write of the update tick leaves as the direction: the zero vector
/// where the two positions coincide or the offered direction holds a NaN, the
/// offered direction otherwise.
pub open spec fn settled_direction(direction: Vec3, source: Vec3, listener: Vec3) -> Vec3 {
    if source.coincides(listener) || direction.has_nan() {
        Vec3::zero()
    } else {
        direction
    }
}

/// The direction from the listener to the source in the listener's own frame,
/// with the two world positions it was derived from.
#[derive(Clone, Copy, PartialEq, Eq, Structural, Debug)]
pub struct SpatialState {
    direction: Vec3,
    source_position: Vec3,
    listener_position: Vec3,
}

impl SpatialState {
    #[verifier::type_invariant]
    spec fn guarded(self) -> bool {
        self.wf()
    }

    pub closed spec fn spec_direction(&self) -> Vec3 {
        self.direction
    }

    pub closed spec fn spec_source_position(&self) -> Vec3 {
        self.source_position
    }

    pub closed spec fn spec_listener_position(&self) -> Vec3 {
        self.listener_position
    }

    /// The direction holds no NaN, and is zero where the positions coincide.
    pub open spec fn wf(self) -> bool {
        &&& !self.direction().has_nan()
        &&& self.source_position().coincides(self.listener_position()) ==> self.direction()
            == Vec3::zero()
    }

    /// The state that a write of these three vectors leaves.
    pub closed spec fn written(direction: Vec3, source: Vec3, listener: Vec3) -> SpatialState {
        SpatialState {
            direction: settled_direction(direction, source, listener),
            source_position: source,
            listener_position: listener,
        }
    }

    /// Source and listener both at the origin, hence no direction.
    pub fn new() -> (s: SpatialState)
        ensures
            s == SpatialState::written(Vec3::zero(), Vec3::zero(), Vec3::zero()),
            s.wf(),
    {
        proof {
            lemma_zero_bits();
        }
        SpatialState {
            direction: Vec3::origin(),
            source_position: Vec3::origin(),
            listener_position: Vec3::origin(),
        }
    }

    /// Replaces the whole state. `direction` is the normalized offset of the
    /// source in the listener's frame as the caller computed it; it is kept
    /// unless it holds a NaN or the positions coincide.
    pub fn write(&mut self, direction: Vec3, source_position: Vec3, listener_position: Vec3)
        ensures
            *final(self) == SpatialState::written(direction, source_position, listener_position),
            final(self).wf(),
    {
        let settled = if source_position.same_point(&listener_position)
            || direction.contains_nan() {
            Vec3::origin()
        } else {
            direction
        };
        proof {
            lemma_zero_bits();
        }
        *self = SpatialState { direction: settled, source_position, listener_position };
    }

    /// From the listener to the source, in the listener's frame.
    #[verifier::when_used_as_spec(spec_direction)]
    pub fn direction(&self) -> (d: Vec3)
        ensures
            d == self.direction(),
            !d.has_nan(),
    {
        proof {
            use_type_invariant(self);
        }
        self.direction
    }

    /// Where the source is in the world.
    #[verifier::when_used_as_spec(spec_source_position)]
    pub fn source_position(&self) -> (p: Vec3)
        ensures
            p == self.source_position(),
    {
        self.source_position
    }

    /// Where the listener is in the world.
    #[verifier::when_used_as_spec(spec_listener_position)]
    pub fn listener_position(&self) -> (p: Vec3)
        ensures
            p == self.listener_position(),
    {
        self.listener_position
    }
}

/// What a write stores, field by field.
pub proof fn lemma_written(direction: Vec3, source: Vec3, listener: Vec3)
    ensures
        SpatialState::written(direction, source, listener).direction() == settled_direction(
            direction,
            source,
            listener,
        ),
        SpatialState::written(direction, source, listener).source_position() == source,
        SpatialState::written(direction, source, listener).listener_position() == listener,
        SpatialState::written(direction, source, listener).wf(),
{
    lemma_zero_bits();
}

/// Marks the scene entity whose transform is the listener's.
#[derive(Clone, Copy, PartialEq, Eq, Structural, Debug)]
pub struct Listener;

/// The world transform of one entity that carries the listener mark, as
/// read at an update tick.
#[derive(Clone, Copy, PartialEq, Eq, Structural, Debug)]
pub struct ListenerTransform {
    /// The entity's stable number.
    pub entity: u64,
    pub translation: Vec3,
    pub right: Vec3,
    pub up: Vec3,
    pub forward: Vec3,
}

impl ListenerTransform {
    /// The transform as a frame of reference.
    pub open spec fn orientation(self) -> Orientation {
        Orientation {
            right: self.right,
            up: self.up,
            ahead: self.forward,
            origin: self.translation,
        }
    }
}

/// Which kinds of simulation an update concerns.
#[derive(Clone, Copy, PartialEq, Eq, Structural, Debug)]
pub struct SimulationFlags {
    pub direct: bool,
    pub reflections: bool,
    pub pathing: bool,
}

impl SimulationFlags {
    /// Every kind.
    pub open spec fn all() -> SimulationFlags {
        SimulationFlags { direct: true, reflections: true, pathing: true }
    }
}

/// The bits of `2.0`.
pub const TWO: u32 = 0x4000_0000;

/// What every source of one simulator shares: the listener, and the budget
/// of the simulation.
#[derive(Clone, Copy, PartialEq, Eq, Structural, Debug)]
pub struct SimulationSharedInputs {
    pub listener: Orientation,
    pub num_rays: u32,
    pub num_bounces: u32,
    pub duration: u32,
    pub order: u8,
    pub irradiance_min_distance: u32,
}

impl SimulationSharedInputs {
    /// The default budget around `listener`.
    pub open spec fn around(listener: Orientation) -> SimulationSharedInputs {
        SimulationSharedInputs {
            listener,
            num_rays: 4096,
            num_bounces: 16,
            duration: TWO,
            order: 1,
            irradiance_min_distance: ONE,
        }
    }
}

impl Default for SimulationSharedInputs {
    fn default() -> (inputs: SimulationSharedInputs)
        ensures
            inputs == SimulationSharedInputs::around(Orientation::identity()),
    {
        SimulationSharedInputs {
            listener: Orientation::standard(),
            num_rays: 4096,
            num_bounces: 16,
            duration: TWO,
            order: 1,
            irradiance_min_distance: ONE,
        }
    }
}

/// Whether number `index` of `listeners` is the one that counts: no other has
/// a smaller entity number, and none before it has the same.
pub open spec fn is_elected(listeners: Seq<ListenerTransform>, index: int) -> bool {
    &&& 0 <= index < listeners.len()
    &&& forall|j: int|
        0 <= j < listeners.len() ==> listeners[index].entity <= (#[trigger] listeners[j]).entity
    &&& forall|j: int|
        0 <= j < index ==> listeners[index].entity < (#[trigger] listeners[j]).entity
}

/// The listener that counts among several: the one with the smallest entity
/// number, the first of them in the list.
pub open spec fn elected(listeners: Seq<ListenerTransform>) -> int
    decreases listeners.len(),
{
    if listeners.len() <= 1 {
        0
    } else {
        let earlier = elected(listeners.drop_last());
        if listeners.last().entity < listeners[earlier].entity {
            listeners.len() - 1
        } else {
            earlier
        }
    }
}

/// The shared inputs after an update tick that found `listeners`: with no
/// listener they stay; otherwise they are the default budget around the
/// elected listener.
pub open spec fn updated(
    shared: SimulationSharedInputs,
    listeners: Seq<ListenerTransform>,
) -> SimulationSharedInputs {
    if listeners.len() == 0 {
        shared
    } else {
        SimulationSharedInputs::around(listeners[elected(listeners)].orientation())
    }
}

/// The elected listener is the only one that meets `is_elected`.
pub proof fn lemma_elected(listeners: Seq<ListenerTransform>)
    requires
        listeners.len() >= 1,
    ensures
        is_elected(listeners, elected(listeners)),
        forall|index: int| is_elected(listeners, index) ==> index == elected(listeners),
    decreases listeners.len(),
{
    if listeners.len() > 1 {
        let front = listeners.drop_last();
        lemma_elected(front);
        let earlier = elected(front);
        assert forall|j: int| 0 <= j < front.len() implies front[j] == listeners[j] by {}
        assert(is_elected(listeners, elected(listeners))) by {
            assert forall|j: int| 0 <= j < listeners.len() implies listeners[elected(
                listeners,
            )].entity <= (#[trigger] listeners[j]).entity by {
                if j < front.len() {
                    assert(front[earlier].entity <= front[j].entity);
                }
            }
            assert forall|j: int| 0 <= j < elected(listeners) implies listeners[elected(
                listeners,
            )].entity < (#[trigger] listeners[j]).entity by {
                assert(front[j] == listeners[j]);
                if elected(listeners) == earlier {
                } else {
                    assert(front[earlier].entity <= front[j].entity);
                }
            }
        }
    }
    assert forall|index: int| is_elected(listeners, index) implies index == elected(
        listeners,
    ) by {
        let winner = elected(listeners);
        assert(listeners[index].entity <= listeners[winner].entity);
        assert(listeners[winner].entity <= listeners[index].entity);
        if index < winner {
            assert(listeners[winner].entity < listeners[index].entity);
        } else if winner < index {
            assert(listeners[index].entity < listeners[winner].entity);
        }
    }
}

/// One update tick on the listener's side: makes the elected listener the
/// simulator's listener. Returns the kinds of simulation to push the inputs
/// for, or nothing if no entity carries the listener mark.
pub fn listener_update(
    shared: &mut SimulationSharedInputs,
    listeners: &Vec<ListenerTransform>,
) -> (flags: Option<SimulationFlags>)
    ensures
        *final(shared) == updated(*old(shared), listeners@),
        flags == if listeners@.len() == 0 {
            None
        } else {
            Some(SimulationFlags::all())
        },
{
    if listeners.len() == 0 {
        return None;
    }
    let mut best: usize = 0;
    let mut i: usize = 1;
    assert(listeners@.take(1).len() == 1);
    while i < listeners.len()
        invariant
            1 <= i <= listeners@.len(),
            best < i,
            best == elected(listeners@.take(i as int)),
        decreases listeners@.len() - i,
    {
        proof {
            let next = listeners@.take(i + 1);
            assert(next.drop_last() =~= listeners@.take(i as int));
            assert(next.last() == listeners@[i as int]);
            assert(next[best as int] == listeners@[best as int]);
        }
        if listeners[i].entity < listeners[best].entity {
            best = i;
        }
        i = i + 1;
    }
    assert(listeners@.take(i as int) =~= listeners@);
    let chosen = listeners[best];
    *shared = SimulationSharedInputs {
        listener: Orientation {
            right: chosen.right,
            up: chosen.up,
            ahead: chosen.forward,
            origin: chosen.translation,
        },
        num_rays: 4096,
        num_bounces: 16,
        duration: TWO,
        order: 1,
        irradiance_min_distance: ONE,
    };
    Some(SimulationFlags { direct: true, reflections: true, pathing: true })
}

/// One update tick on a source's side: stores where the source and the
/// listener are, and the direction between them.
pub fn source_update(
    state: &mut SpatialState,
    direction: Vec3,
    source_position: Vec3,
    listener_position: Vec3,
)
    ensures
        *final(state) == SpatialState::written(direction, source_position, listener_position),
        final(state).wf(),
{
    state.write(direction, source_position, listener_position);
}

/// An update tick repeated with the same transforms changes nothing: the
/// second tick leaves the shared inputs and the spatial state as the first
/// left them.
pub proof fn lemma_update_idempotent(
    shared: SimulationSharedInputs,
    listeners: Seq<ListenerTransform>,
    direction: Vec3,
    source_position: Vec3,
    listener_position: Vec3,
)
    ensures
        updated(updated(shared, listeners), listeners) == updated(shared, listeners),
        SpatialState::written(
            SpatialState::written(direction, source_position, listener_position).direction(),
            source_position,
            listener_position,
        ) == SpatialState::written(direction, source_position, listener_position),
{
    lemma_zero_bits();
}

/// Whatever direction is offered, the stored one holds no NaN, and it is the
/// zero vector when the source is where the listener is.
pub proof fn lemma_direction_settled(direction: Vec3, source_position: Vec3, listener_position: Vec3)
    ensures
        !settled_direction(direction, source_position, listener_position).has_nan(),
        source_position.coincides(listener_position) ==> settled_direction(
            direction,
            source_position,
            listener_position,
        ) == Vec3::zero(),
        !source_position.coincides(listener_position) && !direction.has_nan()
            ==> settled_direction(direction, source_position, listener_position) == direction,
{
    lemma_zero_bits();
}

} // verus!
