//! The player's scripted state, its camera and body parts, and the switch
//! between scripted motion and the physics-driven ragdoll.
use crate::fixed::{trunc_div, Vec3, SCALE, WORLD_LIMIT};
use vstd::prelude::*;

verus! {

/// Height of the body's rest position above the player's location.
pub const BODY_OFFSET_Y: i64 = 1_000_000;

/// Height of the camera's default position above the player's location.
pub const CAMERA_OFFSET_Y: i64 = 1_750_000;

/// Distance of the camera's default position behind the player.
pub const CAMERA_OFFSET_Z: i64 = 10_000_000;

/// Height of the camera rig's pivot above the player's location: the
/// obstruction ray starts here, and an obstructed camera is pulled toward it.
pub const CAMERA_RAY_OFFSET_Y: i64 = 1_750_000;

/// Bound on every coordinate of a location or velocity that the controller
/// takes in: a quarter of `WORLD_LIMIT`, so one tick cannot leave `i64`.
pub const STATE_LIMIT: i64 = 274_877_906_944;

/// Where the body rests relative to the player's location.
pub open spec fn body_offset() -> Vec3 {
    Vec3 { x: 0, y: BODY_OFFSET_Y, z: 0 }
}

/// The camera's unobstructed position relative to the rig, before rotation.
pub open spec fn camera_offset() -> Vec3 {
    Vec3 { x: 0, y: CAMERA_OFFSET_Y, z: CAMERA_OFFSET_Z }
}

/// The rig's pivot relative to the player's location.
pub open spec fn camera_ray_offset() -> Vec3 {
    Vec3 { x: 0, y: CAMERA_RAY_OFFSET_Y, z: 0 }
}

pub fn body_offset_vec3() -> (r: Vec3)
    ensures
        r == body_offset(),
{
    Vec3 { x: 0, y: BODY_OFFSET_Y, z: 0 }
}

pub fn camera_offset_vec3() -> (r: Vec3)
    ensures
        r == camera_offset(),
{
    Vec3 { x: 0, y: CAMERA_OFFSET_Y, z: CAMERA_OFFSET_Z }
}

pub fn camera_ray_offset_vec3() -> (r: Vec3)
    ensures
        r == camera_ray_offset(),
{
    Vec3 { x: 0, y: CAMERA_RAY_OFFSET_Y, z: 0 }
}

/// What a `Player` holds besides its two flags.
pub struct PlayerModel {
    pub location: Vec3,
    pub velocity: Vec3,
    pub rotation: Vec3,
}

/// The player's scripted state. While the player is not bailed, `location`,
/// `velocity` (a displacement per tick) and `rotation` (pitch, yaw, roll as
/// x, y, z) are authoritative; while bailed, the physics body is.
pub struct Player {
    pub bailed: bool,
    pub is_on_floor: bool,
    pub location: Vec3,
    pub velocity: Vec3,
    pub rotation: Vec3,
}

impl View for Player {
    type V = PlayerModel;

    open spec fn view(&self) -> PlayerModel {
        PlayerModel { location: self.location, velocity: self.velocity, rotation: self.rotation }
    }
}

/// The camera child: its own pitch, yaw and roll, independent of the
/// player's heading.
pub struct PlayerCamera {
    pub rotation: Vec3,
}

/// The body child: its lean, a roll in microradians eased while turning.
pub struct PlayerBody {
    pub lean: i64,
}

/// A request to put the player entity (given by its bits) into the bailed
/// state or out of it.
pub struct PlayerBailEvent(pub (u64, bool));

/// What the physics body must do after a bail event.
#[derive(Clone, Copy, Debug, PartialEq, Eq, Structural)]
pub enum BailAction {
    /// The player was already in the requested state: nothing changes.
    Unchanged,
    /// Make the body dynamic and give it this linear velocity, in steps per
    /// second.
    Ragdoll { linear_velocity: Vec3 },
    /// Make the body kinematic, stop it, and put the body and its mesh back
    /// at their rest offset.
    Recover,
}

impl Player {
    /// Location and velocity are small enough for one tick of the controller.
    pub open spec fn in_bounds(&self) -> bool {
        self@.location.within(STATE_LIMIT as int) && self@.velocity.within(STATE_LIMIT as int)
    }

    pub fn is_in_bounds(&self) -> (r: bool)
        ensures
            r == self.in_bounds(),
    {
        let l = self.location;
        let v = self.velocity;
        -STATE_LIMIT <= l.x && l.x <= STATE_LIMIT && -STATE_LIMIT <= l.y && l.y <= STATE_LIMIT
            && -STATE_LIMIT <= l.z && l.z <= STATE_LIMIT && -STATE_LIMIT <= v.x && v.x
            <= STATE_LIMIT && -STATE_LIMIT <= v.y && v.y <= STATE_LIMIT && -STATE_LIMIT <= v.z
            && v.z <= STATE_LIMIT
    }

    pub fn get_location(&self) -> (r: Vec3)
        ensures
            r == self@.location,
    {
        self.location
    }

    pub fn get_rotation(&self) -> (r: Vec3)
        ensures
            r == self@.rotation,
    {
        self.rotation
    }

    pub fn get_velocity(&self) -> (r: Vec3)
        ensures
            r == self@.velocity,
    {
        self.velocity
    }

    pub fn set_location(&mut self, new_location: Vec3)
        ensures
            final(self)@ == (PlayerModel { location: new_location, ..old(self)@ }),
            final(self).bailed == old(self).bailed,
            final(self).is_on_floor == old(self).is_on_floor,
    {
        self.location = new_location;
    }

    pub fn set_rotation(&mut self, new_rotation: Vec3)
        ensures
            final(self)@ == (PlayerModel { rotation: new_rotation, ..old(self)@ }),
            final(self).bailed == old(self).bailed,
            final(self).is_on_floor == old(self).is_on_floor,
    {
        self.rotation = new_rotation;
    }

    pub fn set_velocity(&mut self, new_velocity: Vec3)
        ensures
            final(self)@ == (PlayerModel { velocity: new_velocity, ..old(self)@ }),
            final(self).bailed == old(self).bailed,
            final(self).is_on_floor == old(self).is_on_floor,
    {
        self.velocity = new_velocity;
    }

    /// A player standing still at the spawn point (the origin when none is
    /// given) with the spawn rotation (none when none is given), neither
    /// bailed nor on the floor.
    pub fn spawn(spawn_location: Option<Vec3>, spawn_rotation: Option<Vec3>) -> (r: Player)
        ensures
            r@.location == (match spawn_location {
                Some(l) => l,
                None => Vec3 { x: 0, y: 0, z: 0 },
            }),
            r@.rotation == (match spawn_rotation {
                Some(a) => a,
                None => Vec3 { x: 0, y: 0, z: 0 },
            }),
            r@.velocity == (Vec3 { x: 0, y: 0, z: 0 }),
            !r.bailed,
            !r.is_on_floor,
    {
        let location = match spawn_location {
            Some(l) => l,
            None => Vec3::zero(),
        };
        let rotation = match spawn_rotation {
            Some(a) => a,
            None => Vec3::zero(),
        };
        Player { bailed: false, is_on_floor: false, location, velocity: Vec3::zero(), rotation }
    }
}

/// A per-tick displacement `v` as a velocity per second, for a tick of `dt`
/// microseconds.
pub open spec fn per_second(v: Vec3, dt: int) -> Vec3 {
    Vec3 {
        x: trunc_div(v.x * SCALE, dt) as i64,
        y: trunc_div(v.y * SCALE, dt) as i64,
        z: trunc_div(v.z * SCALE, dt) as i64,
    }
}

/// The scripted state after a bail event asking for `desired`, when the
/// physics body's world translation is `body`: bailing hands the velocity to
/// the physics body and zeroes it; recovering takes the location back from
/// the body.
pub open spec fn bail_model(m: PlayerModel, bailed: bool, desired: bool, body: Vec3) -> (
    PlayerModel,
    bool,
) {
    if bailed == desired {
        (m, bailed)
    } else if desired {
        (PlayerModel { velocity: Vec3 { x: 0, y: 0, z: 0 }, ..m }, true)
    } else {
        (
            PlayerModel {
                location: Vec3 {
                    x: body.x,
                    y: (body.y - BODY_OFFSET_Y) as i64,
                    z: body.z,
                },
                ..m
            },
            false,
        )
    }
}

/// What the physics body is told to do by the same event.
pub open spec fn bail_action(m: PlayerModel, bailed: bool, desired: bool, dt: int) -> BailAction {
    if bailed == desired {
        BailAction::Unchanged
    } else if desired {
        BailAction::Ragdoll { linear_velocity: per_second(m.velocity, dt) }
    } else {
        BailAction::Recover
    }
}

proof fn lemma_per_second_fits(c: int, dt: int)
    requires
        -STATE_LIMIT <= c <= STATE_LIMIT,
        dt > 0,
    ensures
        -i64::MAX <= trunc_div(c * SCALE, dt) <= i64::MAX,
{
    assert(-274_877_906_944_000_000 <= c * SCALE <= 274_877_906_944_000_000) by (nonlinear_arith)
        requires
            -274_877_906_944 <= c <= 274_877_906_944,
    ;
    crate::fixed::lemma_trunc_div_bounds(c * SCALE, dt);
}

fn per_second_of(v: Vec3, dt: i64) -> (r: Vec3)
    requires
        dt > 0,
        v.within(STATE_LIMIT as int),
    ensures
        r == per_second(v, dt as int),
{
    proof {
        lemma_per_second_fits(v.x as int, dt as int);
        lemma_per_second_fits(v.y as int, dt as int);
        lemma_per_second_fits(v.z as int, dt as int);
    }
    Vec3 {
        x: crate::fixed::mul_div(v.x, SCALE, dt),
        y: crate::fixed::mul_div(v.y, SCALE, dt),
        z: crate::fixed::mul_div(v.z, SCALE, dt),
    }
}

/// Handles one bail event. Asking for the state the player is already in
/// changes nothing. Bailing marks the player bailed, zeroes the scripted
/// velocity and hands it to the physics body as a velocity per second.
/// Recovering marks the player scripted again and takes its location from
/// the body's world translation `body_translation`, less the body's rest
/// offset.
pub fn handle_player_bail(
    player: &mut Player,
    event: &PlayerBailEvent,
    dt: i64,
    body_translation: Vec3,
) -> (r: BailAction)
    requires
        old(player).in_bounds(),
        body_translation.within(WORLD_LIMIT as int),
        event.0.1 && !old(player).bailed ==> dt > 0,
    ensures
        (final(player)@, final(player).bailed) == bail_model(
            old(player)@,
            old(player).bailed,
            event.0.1,
            body_translation,
        ),
        r == bail_action(old(player)@, old(player).bailed, event.0.1, dt as int),
        final(player).is_on_floor == old(player).is_on_floor,
{
    let desired = event.0.1;
    if player.bailed == desired {
        return BailAction::Unchanged;
    }
    player.bailed = desired;
    if desired {
        let linear_velocity = per_second_of(player.velocity, dt);
        player.velocity = Vec3::zero();
        BailAction::Ragdoll { linear_velocity }
    } else {
        player.location =
            Vec3 {
                x: body_translation.x,
                y: body_translation.y - BODY_OFFSET_Y,
                z: body_translation.z,
            };
        BailAction::Recover
    }
}

/// Bailing and then recovering, when the physics body has not moved from
/// its rest offset in between, gives back the location the player had
/// before bailing, with no velocity and no longer bailed.
pub proof fn lemma_bail_round_trip(m: PlayerModel, body: Vec3)
    requires
        m.location.within(STATE_LIMIT as int),
    ensures
        ({
            let (m1, b1) = bail_model(m, false, true, body);
            let rest = Vec3 {
                x: m.location.x,
                y: (m.location.y + BODY_OFFSET_Y) as i64,
                z: m.location.z,
            };
            let (m2, b2) = bail_model(m1, b1, false, rest);
            &&& b1
            &&& !b2
            &&& m2.location == m.location
            &&& m2.velocity == (Vec3 { x: 0, y: 0, z: 0 })
            &&& m2.rotation == m.rotation
        }),
{
}

} // verus!
