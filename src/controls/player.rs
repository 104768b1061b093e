//! The player's per-tick resolvers: floor detection, walking and turning,
//! and the camera rig.
use crate::angle::{wrap_angle, wrap_spec, FULL_TURN};
use crate::controls::input::{KeyState, SinCos};
use crate::entities::player::{Player, PlayerBody, STATE_LIMIT};
use crate::fixed::{lerp, lerp_spec, mul_div, trunc_div, Vec3, SCALE, WORLD_LIMIT};
use vstd::prelude::*;

verus! {

/// Downward pull added to the walking direction while airborne.
pub const GRAVITY_Y: i64 = -6_000_000;

/// Upward velocity added by a jump.
pub const JUMP_VELOCITY_Y: i64 = 500_000;

/// Walking input is taken only below this speed.
pub const MAX_WALKING_VELOCITY: i64 = 1_000_000;

/// Turning rate of the turn keys, in microradians per second (π/16 of a
/// full turn per second).
pub const TURN_RATE: i64 = 1_233_701;

/// Acceleration factor, in millionths.
pub const ACCELERATION: i64 = 300_000;

/// Deceleration factor per second, in millionths.
pub const DECELERATION: i64 = 1_000_000;

/// Lean easing factor per second, in millionths.
pub const LEAN_SPEED: i64 = 2_000_000;

/// Lean while turning left, in microradians (π/8).
pub const LEFT_LEAN_MAX_ANGLE: i64 = 392_699;

/// Lean while turning right, in microradians (-π/8).
pub const RIGHT_LEAN_MAX_ANGLE: i64 = -392_699;

/// A floor hit this close to the ray's full length moves nothing.
pub const FLOOR_SNAP_EPSILON: i64 = 10_000;

/// Longest tick the controller takes, in microseconds.
pub const MAX_TICK: i64 = 1_000_000;

// ---------------------------------------------------------------------------
// Floor detection
// ---------------------------------------------------------------------------

/// The nearest of a ray's hit distances, if it hit anything.
pub open spec fn nearest_spec(hits: Seq<i64>) -> Option<i64> {
    if hits.len() == 0 {
        None
    } else {
        Some(min_hit(hits))
    }
}

/// The least element of a non-empty sequence of distances.
pub open spec fn min_hit(hits: Seq<i64>) -> i64
    decreases hits.len(),
{
    if hits.len() <= 1 {
        hits[0]
    } else {
        let rest = min_hit(hits.drop_last());
        if hits.last() < rest {
            hits.last()
        } else {
            rest
        }
    }
}

proof fn lemma_min_hit_is_least(hits: Seq<i64>)
    requires
        hits.len() > 0,
    ensures
        exists|i: int| 0 <= i < hits.len() && hits[i] == min_hit(hits),
        forall|i: int| 0 <= i < hits.len() ==> min_hit(hits) <= hits[i],
    decreases hits.len(),
{
    if hits.len() == 1 {
        assert(hits[0] == min_hit(hits));
    } else {
        lemma_min_hit_is_least(hits.drop_last());
        let w = choose|i: int| 0 <= i < hits.len() - 1 && hits.drop_last()[i] == min_hit(hits.drop_last());
        if hits.last() < min_hit(hits.drop_last()) {
            assert(hits[hits.len() - 1] == min_hit(hits));
        } else {
            assert(hits[w] == min_hit(hits));
        }
        assert forall|i: int| 0 <= i < hits.len() implies min_hit(hits) <= hits[i] by {
            if i < hits.len() - 1 {
                assert(hits.drop_last()[i] == hits[i]);
            }
        }
    }
}

/// The nearest hit is one of the hits, so it keeps any bound they share.
pub proof fn lemma_nearest_in_range(hits: Seq<i64>, hi: int)
    requires
        forall|i: int| 0 <= i < hits.len() ==> 0 <= #[trigger] hits[i] <= hi,
    ensures
        nearest_spec(hits) matches Some(d) ==> 0 <= d <= hi,
{
    if hits.len() > 0 {
        lemma_min_hit_is_least(hits);
    }
}

/// The nearest hit distance of a ray: the least of `hits`, or `None` when
/// the ray hit nothing.
pub fn nearest_hit(hits: &Vec<i64>) -> (r: Option<i64>)
    ensures
        r == nearest_spec(hits@),
        r is None <==> hits@.len() == 0,
        r matches Some(d) ==> (exists|i: int| 0 <= i < hits@.len() && hits@[i] == d) && (forall|
            i: int,
        | 0 <= i < hits@.len() ==> d <= hits@[i]),
{
    if hits.len() == 0 {
        return None;
    }
    let mut best: i64 = hits[0];
    let mut i: usize = 1;
    proof {
        assert(hits@.take(1).drop_last() =~= hits@.take(0));
    }
    while i < hits.len()
        invariant
            1 <= i <= hits@.len(),
            best == min_hit(hits@.take(i as int)),
        decreases hits@.len() - i,
    {
        proof {
            assert(hits@.take(i as int + 1).drop_last() =~= hits@.take(i as int));
        }
        if hits[i] < best {
            best = hits[i];
        }
        i = i + 1;
    }
    proof {
        assert(hits@.take(hits@.len() as int) =~= hits@);
        lemma_min_hit_is_least(hits@);
    }
    Some(best)
}

/// The player after the floor ray reported `nearest` (the nearest hit, if
/// any) with a full length of `max_toi`. A hit puts the player on the floor,
/// stops any fall, and when the hit is more than `FLOOR_SNAP_EPSILON` short
/// of (or beyond) the full length, moves the player up by the difference.
/// No hit leaves the player airborne.
pub open spec fn floor_spec(p: Player, nearest: Option<i64>, max_toi: int) -> Player {
    match nearest {
        None => Player { is_on_floor: false, ..p },
        Some(d) => Player {
            is_on_floor: true,
            velocity: if p.velocity.y < 0 {
                Vec3 { y: 0, ..p.velocity }
            } else {
                p.velocity
            },
            location: if floor_snaps(d as int, max_toi) {
                Vec3 { y: (p.location.y + (max_toi - d)) as i64, ..p.location }
            } else {
                p.location
            },
            ..p
        },
    }
}

/// Whether a floor hit at `d` on a ray of length `max_toi` moves the player.
pub open spec fn floor_snaps(d: int, max_toi: int) -> bool {
    max_toi - d > FLOOR_SNAP_EPSILON || d - max_toi > FLOOR_SNAP_EPSILON
}

/// Updates the on-floor flag from the floor ray's hit distances, and snaps
/// the player onto the floor; see `floor_spec`.
pub fn handle_player_is_on_floor(player: &mut Player, hits: &Vec<i64>, max_toi: i64)
    requires
        old(player).in_bounds(),
        0 <= max_toi <= WORLD_LIMIT,
        forall|i: int| 0 <= i < hits@.len() ==> 0 <= #[trigger] hits@[i] <= WORLD_LIMIT,
    ensures
        *final(player) == floor_spec(*old(player), nearest_spec(hits@), max_toi as int),
{
    match nearest_hit(hits) {
        None => {
            player.is_on_floor = false;
        },
        Some(d) => {
            player.is_on_floor = true;
            if player.velocity.y < 0 {
                player.velocity = Vec3 { y: 0, ..player.velocity };
            }
            let gap: i64 = max_toi - d;
            if gap > FLOOR_SNAP_EPSILON || -gap > FLOOR_SNAP_EPSILON {
                player.location = Vec3 { y: player.location.y + gap, ..player.location };
            }
        },
    }
}

/// A floor hit more than `FLOOR_SNAP_EPSILON` away from the ray's full
/// length moves the player up by exactly the difference; a nearer one does
/// not move the player at all.
pub proof fn lemma_floor_snap(p: Player, d: i64, max_toi: int)
    ensures
        ({
            let q = floor_spec(p, Some(d), max_toi);
            let gap = max_toi - d;
            &&& q.is_on_floor
            &&& (gap > FLOOR_SNAP_EPSILON || gap < -FLOOR_SNAP_EPSILON) ==> q.location.y == (
            p.location.y + gap) as i64
            &&& (-FLOOR_SNAP_EPSILON <= gap <= FLOOR_SNAP_EPSILON) ==> q.location.y
                == p.location.y
            &&& q.location.x == p.location.x && q.location.z == p.location.z
        }),
{
}

// ---------------------------------------------------------------------------
// Walking and turning
// ---------------------------------------------------------------------------

/// How far the turn keys turn in a tick of `dt` microseconds.
pub open spec fn turn_step(dt: int) -> int {
    trunc_div(TURN_RATE * dt, SCALE as int)
}

/// The change of yaw from the turn keys: left turns positive, right
/// negative, left winning when both are held.
pub open spec fn yaw_delta(keys: KeyState, dt: int) -> int {
    if keys.left {
        turn_step(dt)
    } else if keys.right {
        -turn_step(dt)
    } else {
        0
    }
}

/// The player's rotation after a tick: the yaw turned by the keys, the roll
/// kept, both wrapped into one turn; the body never pitches.
pub open spec fn turned_rotation_spec(rotation: Vec3, keys: KeyState, dt: int) -> Vec3 {
    Vec3 {
        x: 0,
        y: wrap_spec(rotation.y + yaw_delta(keys, dt)) as i64,
        z: wrap_spec(rotation.z as int) as i64,
    }
}

/// The lean the body eases toward.
pub open spec fn lean_target(keys: KeyState) -> int {
    if keys.left {
        LEFT_LEAN_MAX_ANGLE as int
    } else if keys.right {
        RIGHT_LEAN_MAX_ANGLE as int
    } else {
        0
    }
}

/// The body's lean after a tick of `dt` microseconds.
pub open spec fn lean_spec(lean: int, keys: KeyState, dt: int) -> int {
    lerp_spec(lean, lean_target(keys), trunc_div(LEAN_SPEED * dt, SCALE as int))
}

/// The player's rotation after the turn keys of this tick; the sine and
/// cosine of its yaw are what `handle_player_movement` walks along.
pub fn turned_rotation(rotation: Vec3, keys: &KeyState, dt: i64) -> (r: Vec3)
    requires
        0 <= dt <= MAX_TICK,
    ensures
        r == turned_rotation_spec(rotation, *keys, dt as int),
        0 <= r.y < FULL_TURN,
        0 <= r.z < FULL_TURN,
{
    proof {
        crate::fixed::lemma_trunc_div_bounds(TURN_RATE * dt, SCALE as int);
    }
    let step: i64 = mul_div(TURN_RATE, dt, SCALE);
    let delta: i64 = if keys.left {
        step
    } else if keys.right {
        -step
    } else {
        0
    };
    let yaw: i64 = wrap_angle(rotation.y as i128 + delta as i128);
    let roll: i64 = wrap_angle(rotation.z as i128);
    Vec3 { x: 0, y: yaw, z: roll }
}

/// Walking input along the player's local z axis (forward is negative):
/// taken only on the floor and below `MAX_WALKING_VELOCITY`.
pub open spec fn walk_input(p: Player, keys: KeyState) -> int {
    if p.is_on_floor && p.velocity.length_squared() < MAX_WALKING_VELOCITY * MAX_WALKING_VELOCITY {
        (if keys.back {
            1int
        } else {
            0int
        }) - (if keys.forward {
            1int
        } else {
            0int
        })
    } else {
        0
    }
}

/// The world-space direction of this tick: the walking input turned by the
/// heading (sine and cosine of the yaw), plus gravity while airborne.
pub open spec fn world_direction(p: Player, keys: KeyState, heading: SinCos) -> Vec3 {
    Vec3 {
        x: (walk_input(p, keys) * heading.sin) as i64,
        y: if p.is_on_floor {
            0
        } else {
            GRAVITY_Y
        },
        z: (walk_input(p, keys) * heading.cos) as i64,
    }
}

/// One coordinate of the velocity after accelerating along `dir` for `dt`.
pub open spec fn accelerate(v: int, dir: int, dt: int) -> int {
    v + trunc_div(dt * ACCELERATION * dir, SCALE * SCALE)
}

/// The velocity after acceleration, before any jump or deceleration.
pub open spec fn accelerated_velocity(p: Player, keys: KeyState, heading: SinCos, dt: int) -> Vec3 {
    let d = world_direction(p, keys, heading);
    Vec3 {
        x: accelerate(p.velocity.x as int, d.x as int, dt) as i64,
        y: accelerate(p.velocity.y as int, d.y as int, dt) as i64,
        z: accelerate(p.velocity.z as int, d.z as int, dt) as i64,
    }
}

/// The deceleration factor of a tick of `dt` microseconds, in millionths.
pub open spec fn deceleration_factor(dt: int) -> int {
    trunc_div(dt * DECELERATION, SCALE as int)
}

/// `v` eased toward rest by the deceleration of a tick.
pub open spec fn decelerated(v: Vec3, dt: int) -> Vec3 {
    let t = deceleration_factor(dt);
    Vec3 {
        x: lerp_spec(v.x as int, 0, t) as i64,
        y: lerp_spec(v.y as int, 0, t) as i64,
        z: lerp_spec(v.z as int, 0, t) as i64,
    }
}

/// `v` with the jump impulse added.
pub open spec fn jumped(v: Vec3) -> Vec3 {
    Vec3 { y: (v.y + JUMP_VELOCITY_Y) as i64, ..v }
}

/// The velocity after a tick: accelerated; then, on the floor, either given
/// the jump impulse (the jump key went down this tick) or eased toward rest.
pub open spec fn next_velocity(p: Player, keys: KeyState, heading: SinCos, dt: int) -> Vec3 {
    let a = accelerated_velocity(p, keys, heading, dt);
    if p.is_on_floor {
        if keys.jump_just_pressed {
            jumped(a)
        } else {
            decelerated(a, dt)
        }
    } else {
        a
    }
}

fn accelerate_coord(v: i64, dir: i64, dt: i64) -> (r: i64)
    requires
        -STATE_LIMIT <= v <= STATE_LIMIT,
        -6 * SCALE <= dir <= 6 * SCALE,
        0 <= dt <= MAX_TICK,
    ensures
        r == accelerate(v as int, dir as int, dt as int),
        -STATE_LIMIT - 2 * SCALE <= r <= STATE_LIMIT + 2 * SCALE,
{
    let rate: i64 = dt * ACCELERATION;
    proof {
        let n = rate * dir;
        assert(-1_800_000_000_000_000_000 <= n <= 1_800_000_000_000_000_000) by (nonlinear_arith)
            requires
                n == rate * dir,
                0 <= rate <= 300_000_000_000,
                -6_000_000 <= dir <= 6_000_000,
        ;
        crate::fixed::lemma_trunc_div_bounds(n, SCALE * SCALE);
        crate::fixed::lemma_trunc_div_monotone(n, 1_800_000_000_000_000_000, SCALE * SCALE);
        crate::fixed::lemma_trunc_div_monotone(-1_800_000_000_000_000_000, n, SCALE * SCALE);
        assert(trunc_div(1_800_000_000_000_000_000, SCALE * SCALE) == 1_800_000);
        assert(trunc_div(-1_800_000_000_000_000_000, SCALE * SCALE) == -1_800_000);
    }
    v + mul_div(rate, dir, SCALE * SCALE)
}

/// Turns the player by the turn keys, eases the body's lean, and walks:
/// builds the direction from the movement keys along `heading` (the sine and
/// cosine of the new yaw, see `turned_rotation`), adds gravity while
/// airborne, accelerates, jumps or decelerates on the floor, and moves the
/// player by the new velocity. A bailed player is left alone.
pub fn handle_player_movement(
    player: &mut Player,
    body: &mut PlayerBody,
    keys: &KeyState,
    dt: i64,
    heading: &SinCos,
)
    requires
        old(player).in_bounds(),
        -WORLD_LIMIT <= old(body).lean <= WORLD_LIMIT,
        0 <= dt <= MAX_TICK,
        heading.wf(),
    ensures
        old(player).bailed ==> *final(player) == *old(player) && final(body).lean == old(
            body,
        ).lean,
        !old(player).bailed ==> {
            &&& final(player).rotation == turned_rotation_spec(old(player).rotation, *keys, dt as int)
            &&& final(body).lean == lean_spec(old(body).lean as int, *keys, dt as int)
            &&& final(player).velocity == next_velocity(*old(player), *keys, *heading, dt as int)
            &&& final(player).location.x == old(player).location.x + final(player).velocity.x
            &&& final(player).location.y == old(player).location.y + final(player).velocity.y
            &&& final(player).location.z == old(player).location.z + final(player).velocity.z
            &&& final(player).bailed == old(player).bailed
            &&& final(player).is_on_floor == old(player).is_on_floor
        },
{
    if player.bailed {
        return;
    }
    let rotation = turned_rotation(player.rotation, keys, dt);
    let target: i64 = if keys.left {
        LEFT_LEAN_MAX_ANGLE
    } else if keys.right {
        RIGHT_LEAN_MAX_ANGLE
    } else {
        0
    };
    proof {
        crate::fixed::lemma_trunc_div_bounds(LEAN_SPEED * dt, SCALE as int);
    }
    let lean_factor: i64 = mul_div(LEAN_SPEED, dt, SCALE);
    body.lean = lerp(body.lean, target, lean_factor);
    player.rotation = rotation;

    // Walking input, taken only on the floor and below walking speed.
    let v = player.velocity;
    proof {
        assert(0 <= v.x * v.x <= 0x1_0000_0000_0000_0000_0000int) by (nonlinear_arith)
            requires
                -274_877_906_944 <= v.x <= 274_877_906_944,
        ;
        assert(0 <= v.y * v.y <= 0x1_0000_0000_0000_0000_0000int) by (nonlinear_arith)
            requires
                -274_877_906_944 <= v.y <= 274_877_906_944,
        ;
        assert(0 <= v.z * v.z <= 0x1_0000_0000_0000_0000_0000int) by (nonlinear_arith)
            requires
                -274_877_906_944 <= v.z <= 274_877_906_944,
        ;
    }
    let xx: i128 = (v.x as i128) * (v.x as i128);
    let yy: i128 = (v.y as i128) * (v.y as i128);
    let zz: i128 = (v.z as i128) * (v.z as i128);
    let speed_squared: i128 = xx + yy + zz;
    let mut walk: i64 = 0;
    if player.is_on_floor && speed_squared < (MAX_WALKING_VELOCITY as i128) * (
    MAX_WALKING_VELOCITY as i128) {
        if keys.back {
            walk = walk + 1;
        }
        if keys.forward {
            walk = walk - 1;
        }
    }
    proof {
        assert(walk == walk_input(*old(player), *keys));
        assert(-SCALE <= walk * heading.sin <= SCALE && -SCALE <= walk * heading.cos <= SCALE)
            by (nonlinear_arith)
            requires
                -1 <= walk <= 1,
                -1_000_000 <= heading.sin <= 1_000_000,
                -1_000_000 <= heading.cos <= 1_000_000,
                SCALE == 1_000_000,
        ;
    }
    let dir = Vec3 {
        x: walk * heading.sin,
        y: if player.is_on_floor {
            0
        } else {
            GRAVITY_Y
        },
        z: walk * heading.cos,
    };
    let accelerated = Vec3 {
        x: accelerate_coord(v.x, dir.x, dt),
        y: accelerate_coord(v.y, dir.y, dt),
        z: accelerate_coord(v.z, dir.z, dt),
    };
    let velocity = if player.is_on_floor {
        if keys.jump_just_pressed {
            Vec3 { y: accelerated.y + JUMP_VELOCITY_Y, ..accelerated }
        } else {
            proof {
                crate::fixed::lemma_trunc_div_exact(dt as int, SCALE as int);
            }
            let factor: i64 = mul_div(dt, DECELERATION, SCALE);
            Vec3 {
                x: lerp(accelerated.x, 0, factor),
                y: lerp(accelerated.y, 0, factor),
                z: lerp(accelerated.z, 0, factor),
            }
        }
    } else {
        accelerated
    };
    player.velocity = velocity;
    player.location = player.location.plus(velocity);
}

proof fn lemma_decay_coord(c: int, t: int)
    requires
        1 <= t <= SCALE,
    ensures
        lerp_spec(c, 0, t) * lerp_spec(c, 0, t) <= c * c,
        c != 0 ==> lerp_spec(c, 0, t) * lerp_spec(c, 0, t) < c * c,
        c >= 0 ==> 0 <= lerp_spec(c, 0, t) <= c,
        c <= 0 ==> c <= lerp_spec(c, 0, t) <= 0,
{
    let k = (c - 0) * (SCALE - t);
    let q = trunc_div(k, SCALE as int);
    crate::fixed::lemma_trunc_div_bounds(k, SCALE as int);
    assert(lerp_spec(c, 0, t) == q);
    if c >= 0 {
        assert(0 <= k <= c * SCALE - c) by (nonlinear_arith)
            requires
                k == (c - 0) * (SCALE - t),
                c >= 0,
                1 <= t <= SCALE,
        ;
        assert(0 <= q <= c && (c > 0 ==> q < c)) by (nonlinear_arith)
            requires
                q * SCALE <= k,
                0 <= q,
                0 <= k <= c * SCALE - c,
                SCALE > 0,
        ;
        assert(q * q <= c * c && (c > 0 ==> q * q < c * c)) by (nonlinear_arith)
            requires
                0 <= q <= c,
                c > 0 ==> q < c,
        ;
    } else {
        assert(c * SCALE - c <= k <= 0) by (nonlinear_arith)
            requires
                k == (c - 0) * (SCALE - t),
                c < 0,
                1 <= t <= SCALE,
        ;
        assert(c < q <= 0) by (nonlinear_arith)
            requires
                -q * SCALE <= -k,
                q <= 0,
                c * SCALE - c <= k <= 0,
                c < 0,
                SCALE > 0,
        ;
        assert(q * q < c * c) by (nonlinear_arith)
            requires
                c < q <= 0,
        ;
    }
}

/// On the floor, with neither walking key held and no jump, the velocity
/// decays: its squared length strictly decreases every tick until it is
/// zero.
pub proof fn lemma_decay_without_input(p: Player, keys: KeyState, heading: SinCos, dt: int)
    requires
        p.in_bounds(),
        p.is_on_floor,
        !keys.forward,
        !keys.back,
        !keys.jump_just_pressed,
        0 < dt <= MAX_TICK,
        p.velocity != (Vec3 { x: 0, y: 0, z: 0 }),
    ensures
        next_velocity(p, keys, heading, dt).length_squared() < p.velocity.length_squared(),
{
    let v = p.velocity;
    assert(walk_input(p, keys) == 0);
    assert(trunc_div(dt * ACCELERATION * 0, SCALE * SCALE) == 0);
    assert(accelerated_velocity(p, keys, heading, dt) == v);
    crate::fixed::lemma_trunc_div_exact(dt, SCALE as int);
    assert(deceleration_factor(dt) == dt);
    lemma_decay_coord(v.x as int, dt);
    lemma_decay_coord(v.y as int, dt);
    lemma_decay_coord(v.z as int, dt);
    let n = next_velocity(p, keys, heading, dt);
    assert(n == decelerated(v, dt));
    let (x, y, z) = (lerp_spec(v.x as int, 0, dt), lerp_spec(v.y as int, 0, dt), lerp_spec(
        v.z as int,
        0,
        dt,
    ));
    assert(n.x == x && n.y == y && n.z == z);
    assert(x * x + y * y + z * z < v.x * v.x + v.y * v.y + v.z * v.z) by {
        assert(x * x <= v.x * v.x);
        assert(y * y <= v.y * v.y);
        assert(z * z <= v.z * v.z);
        assert(v.x != 0 || v.y != 0 || v.z != 0);
    }
}

/// The jump impulse is added only when the player is on the floor and the
/// jump key went down this tick; otherwise the velocity carries no impulse.
pub proof fn lemma_jump_on_edge_only(p: Player, keys: KeyState, heading: SinCos, dt: int)
    ensures
        p.is_on_floor && keys.jump_just_pressed ==> next_velocity(p, keys, heading, dt) == jumped(
            accelerated_velocity(p, keys, heading, dt),
        ),
        p.is_on_floor && !keys.jump_just_pressed ==> next_velocity(p, keys, heading, dt)
            == decelerated(accelerated_velocity(p, keys, heading, dt), dt),
        !p.is_on_floor ==> next_velocity(p, keys, heading, dt) == accelerated_velocity(
            p,
            keys,
            heading,
            dt,
        ),
{
}

} // verus!
