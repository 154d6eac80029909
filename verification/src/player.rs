//! The player: the last camera pose that was seen, and the hitbox that
//! follows the camera.
//!
//! The camera moves freely; the physics engine knows nothing of it. Once a
//! frame the host reports the camera's pose. Where the position or the
//! orientation is no longer the one on record, the record is overwritten
//! and every kinematic body is asked to be at the camera's position on the
//! next physics step. The orientation is recorded and is never handed to a
//! body.
//!
//! A request names its body by the engine's handle, so the host can make it
//! in whatever order it meets the bodies.

use vstd::prelude::*;
use rapier3d::dynamics::RigidBodySet;
use crate::bodies::{walk, walk_bodies};
use crate::scalar::Scalar;

verus! {

/// A position in world space.
#[derive(Clone, Copy, Debug, PartialEq, Eq, Structural)]
pub struct Location {
    pub x: Scalar,
    pub y: Scalar,
    pub z: Scalar,
}

/// An orientation, as a quaternion.
#[derive(Clone, Copy, Debug, PartialEq, Eq, Structural)]
pub struct Rotation {
    pub x: Scalar,
    pub y: Scalar,
    pub z: Scalar,
    pub w: Scalar,
}

/// The camera pose that was last recorded.
#[derive(Clone, Copy, Debug, PartialEq, Eq, Structural)]
pub struct Player {
    pub location: Location,
    pub rotation: Rotation,
}

/// The encoding of `1.0`.
pub const ONE_BITS: u32 = 0x3f80_0000;

impl Location {
    /// The two positions are the same point: each coordinate is the same
    /// number.
    pub open spec fn same(self, other: Location) -> bool {
        self.x.same(other.x) && self.y.same(other.y) && self.z.same(other.z)
    }

    /// Whether the two positions are the same point.
    pub fn same_point(&self, other: &Location) -> (r: bool)
        ensures
            r == self.same(*other),
    {
        self.x.same_number(&other.x) && self.y.same_number(&other.y) && self.z.same_number(
            &other.z,
        )
    }
}

impl Rotation {
    /// The two quaternions are the same: each component is the same number.
    /// (A quaternion and its negative turn space alike and still differ here.)
    pub open spec fn same(self, other: Rotation) -> bool {
        self.x.same(other.x) && self.y.same(other.y) && self.z.same(other.z) && self.w.same(
            other.w,
        )
    }

    /// Whether the two quaternions are the same.
    pub fn same_turn(&self, other: &Rotation) -> (r: bool)
        ensures
            r == self.same(*other),
    {
        self.x.same_number(&other.x) && self.y.same_number(&other.y) && self.z.same_number(
            &other.z,
        ) && self.w.same_number(&other.w)
    }
}

impl Player {
    /// The record before any frame: the origin, and no turn at all.
    pub open spec fn initial() -> Player {
        Player {
            location: Location {
                x: Scalar { bits: 0 },
                y: Scalar { bits: 0 },
                z: Scalar { bits: 0 },
            },
            rotation: Rotation {
                x: Scalar { bits: 0 },
                y: Scalar { bits: 0 },
                z: Scalar { bits: 0 },
                w: Scalar { bits: ONE_BITS },
            },
        }
    }

    /// The record after the camera was seen at `translation`, turned by
    /// `rotation`. Each half is overwritten where it differs and kept where
    /// it does not.
    pub open spec fn seeing(self, translation: Location, rotation: Rotation) -> Player {
        Player {
            location: if self.location.same(translation) {
                self.location
            } else {
                translation
            },
            rotation: if self.rotation.same(rotation) {
                self.rotation
            } else {
                rotation
            },
        }
    }
}

impl Default for Player {
    fn default() -> (p: Player)
        ensures
            p == Player::initial(),
    {
        let zero = Scalar { bits: 0 };
        Player {
            location: Location { x: zero, y: zero, z: zero },
            rotation: Rotation { x: zero, y: zero, z: zero, w: Scalar { bits: ONE_BITS } },
        }
    }
}

/// The handle by which the physics engine knows a body: the slot in which
/// the body stands, and the generation of that slot.
#[derive(Clone, Copy, Debug, PartialEq, Eq, Structural)]
pub struct BodyId {
    pub index: usize,
    pub generation: u64,
}

/// What is asked of one body: to be at `target` after the next physics step,
/// or, with `None`, nothing.
#[derive(Clone, Copy, Debug, PartialEq, Eq, Structural)]
pub struct Request {
    pub body: BodyId,
    pub target: Option<Location>,
}

/// What a frame's pose changes on the record.
#[derive(Clone, Copy, Debug, PartialEq, Eq, Structural)]
pub struct Change {
    /// The position is no longer the one that was on record.
    pub moved: bool,
    /// The orientation is no longer the one that was on record.
    pub turned: bool,
}

/// What is asked of each body when the camera is at `target`, in the order
/// of `bodies`, which gives each body's slot, generation and whether it is
/// kinematic: a kinematic body is to be at `target`, and nothing is asked of
/// any other body.
pub open spec fn hitbox_requests(target: Location, bodies: Seq<(usize, u64, bool)>) -> Seq<
    Request,
> {
    Seq::new(
        bodies.len(),
        |i: int|
            Request {
                body: BodyId { index: bodies[i].0, generation: bodies[i].1 },
                target: if bodies[i].2 {
                    Some(target)
                } else {
                    None
                },
            },
    )
}

/// What the first request for `body` asks; `None` where it asks nothing or
/// where there is no request for `body`.
pub open spec fn target_in(requests: Seq<Request>, body: BodyId) -> Option<Location>
    decreases requests.len(),
{
    if requests.len() == 0 {
        None
    } else if requests[0].body == body {
        requests[0].target
    } else {
        target_in(requests.skip(1), body)
    }
}

impl Player {
    /// Takes in the camera's pose for this frame, and says what has changed:
    /// whether the position, and whether the orientation, is no longer the
    /// one that was on record.
    pub fn observe(&mut self, translation: Location, rotation: Rotation) -> (change: Change)
        ensures
            *final(self) == old(self).seeing(translation, rotation),
            change.moved == !old(self).location.same(translation),
            change.turned == !old(self).rotation.same(rotation),
    {
        let moved = !self.location.same_point(&translation);
        let turned = !self.rotation.same_turn(&rotation);
        if moved {
            self.location = translation;
        }
        if turned {
            self.rotation = rotation;
        }
        Change { moved, turned }
    }
}

/// The requests that carry the hitboxes to `target`.
///
/// `bodies` gives for each physics body its slot, the generation of the slot
/// and whether the body is kinematic. The result has one request for each
/// body, in the same order: to be at `target` for a kinematic body, nothing
/// for any other.
pub fn hitbox_targets(target: Location, bodies: &Vec<(usize, u64, bool)>) -> (requests: Vec<
    Request,
>)
    ensures
        requests@ == hitbox_requests(target, bodies@),
{
    let mut requests: Vec<Request> = Vec::new();
    let mut i: usize = 0;
    while i < bodies.len()
        invariant
            i <= bodies@.len(),
            requests@ == hitbox_requests(target, bodies@.take(i as int)),
        decreases bodies@.len() - i,
    {
        let (index, generation, kinematic) = bodies[i];
        let body = BodyId { index, generation };
        if kinematic {
            requests.push(Request { body, target: Some(target) });
        } else {
            requests.push(Request { body, target: None });
        }
        i += 1;
    }
    assert(bodies@.take(i as int) == bodies@);
    requests
}

/// Looks up what is asked of `body`: the target of the first request that
/// names it, and `None` where that request asks nothing or no request names
/// the body.
pub fn target_of(requests: &Vec<Request>, body: BodyId) -> (target: Option<Location>)
    ensures
        target == target_in(requests@, body),
{
    let mut i: usize = 0;
    assert(requests@.skip(0) == requests@);
    while i < requests.len()
        invariant
            i <= requests@.len(),
            target_in(requests@, body) == target_in(requests@.skip(i as int), body),
        decreases requests@.len() - i,
    {
        let request = requests[i];
        assert(requests@.skip(i as int)[0] == request);
        if request.body.index == body.index && request.body.generation == body.generation {
            return request.target;
        }
        assert(requests@.skip(i as int).skip(1) == requests@.skip(i + 1));
        i += 1;
    }
    None
}

/// One frame of the player following the camera.
///
/// The pose is taken in as by [`Player::observe`]. Where neither the
/// position nor the orientation has changed, the bodies are not looked at
/// and the result is `None`. Where either has, the result holds one request
/// for each body of the set: to be at the camera's position, `translation`,
/// for a kinematic body, and nothing for any other. The host makes the
/// requests; nothing here changes a body.
pub fn update_player_camera(
    player: &mut Player,
    translation: Location,
    rotation: Rotation,
    bodies: &RigidBodySet,
) -> (requests: Option<Vec<Request>>)
    ensures
        *final(player) == old(player).seeing(translation, rotation),
        requests.is_some() == (!old(player).location.same(translation) || !old(
            player,
        ).rotation.same(rotation)),
        requests matches Some(r) ==> r@ == hitbox_requests(translation, walk(*bodies)),
{
    let change = player.observe(translation, rotation);
    if change.moved || change.turned {
        let found = walk_bodies(bodies);
        Some(hitbox_targets(translation, &found))
    } else {
        None
    }
}

/// A camera that stands still asks nothing. Once a pose without a NaN is on
/// record, the record shows the camera's position and orientation, and
/// taking the same pose in again changes nothing and finds nothing changed.
pub proof fn still_camera_settles(player: Player, translation: Location, rotation: Rotation)
    requires
        !translation.x.nan() && !translation.y.nan() && !translation.z.nan(),
        !rotation.x.nan() && !rotation.y.nan() && !rotation.z.nan() && !rotation.w.nan(),
    ensures
        player.seeing(translation, rotation).location.same(translation),
        player.seeing(translation, rotation).rotation.same(rotation),
        player.seeing(translation, rotation).seeing(translation, rotation) == player.seeing(
            translation,
            rotation,
        ),
{
}

/// A NaN never settles: a pose with a NaN in it is a change in every frame,
/// whatever is on record, and the half that holds the NaN is recorded as it
/// came.
pub proof fn nan_always_changes(player: Player, translation: Location, rotation: Rotation)
    ensures
        translation.x.nan() || translation.y.nan() || translation.z.nan() ==> {
            &&& !player.location.same(translation)
            &&& player.seeing(translation, rotation).location == translation
        },
        rotation.x.nan() || rotation.y.nan() || rotation.z.nan() || rotation.w.nan() ==> {
            &&& !player.rotation.same(rotation)
            &&& player.seeing(translation, rotation).rotation == rotation
        },
{
}

/// Every body finds its own request. Where no two bodies go by one handle,
/// looking up a body among the requests for `target` gives `target` if the
/// body is kinematic and nothing if it is not.
pub proof fn every_body_finds_its_request(
    target: Location,
    bodies: Seq<(usize, u64, bool)>,
    i: int,
)
    requires
        0 <= i < bodies.len(),
        forall|j: int, k: int|
            0 <= j < k < bodies.len() ==> !(bodies[j].0 == bodies[k].0 && bodies[j].1
                == bodies[k].1),
    ensures
        target_in(
            hitbox_requests(target, bodies),
            BodyId { index: bodies[i].0, generation: bodies[i].1 },
        ) == (if bodies[i].2 {
            Some(target)
        } else {
            None
        }),
    decreases i,
{
    let requests = hitbox_requests(target, bodies);
    if i > 0 {
        let rest = bodies.skip(1);
        assert(requests.skip(1) == hitbox_requests(target, rest));
        assert(rest[i - 1] == bodies[i]);
        assert forall|j: int, k: int| 0 <= j < k < rest.len() implies !(rest[j].0 == rest[k].0
            && rest[j].1 == rest[k].1) by {
            assert(rest[j] == bodies[j + 1] && rest[k] == bodies[k + 1]);
        }
        every_body_finds_its_request(target, rest, i - 1);
    }
}

} // verus!
