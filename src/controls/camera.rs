//! The camera rig: mouse look, obstruction avoidance and placement.
use crate::angle::{signed_angle, signed_spec, wrap_angle, wrap_spec, FULL_TURN, QUARTER_TURN};
use crate::controls::input::{MouseMotion, SinCos};
use crate::controls::player::{nearest_hit, nearest_spec, MAX_TICK};
use crate::entities::player::{
    body_offset, camera_offset, camera_offset_vec3, camera_ray_offset, camera_ray_offset_vec3,
    Player, PlayerCamera, BODY_OFFSET_Y, CAMERA_RAY_OFFSET_Y, STATE_LIMIT,
};
use crate::fixed::{lerp_spec, mul_div, scale_by, trunc_div, Vec3, SCALE, WORLD_LIMIT};
use vstd::prelude::*;

verus! {

/// Mouse yaw rate, in microradians per pixel per second (0.003 of a turn).
pub const MOUSE_SENSITIVITY_X: i64 = 18_850;

/// Mouse pitch rate, in microradians per pixel per second (0.002 of a turn).
pub const MOUSE_SENSITIVITY_Y: i64 = 12_566;

/// Margin kept from looking straight up, in microradians (π/4).
pub const CAMERA_TOP_DEADZONE: i64 = 785_398;

/// Margin kept from looking straight down, in microradians (π/4).
pub const CAMERA_BOTTOM_DEADZONE: i64 = 785_398;

/// Lowest camera pitch.
pub const PITCH_MIN: i64 = -QUARTER_TURN + CAMERA_TOP_DEADZONE;

/// Highest camera pitch.
pub const PITCH_MAX: i64 = QUARTER_TURN - CAMERA_BOTTOM_DEADZONE;

/// Largest mouse motion sample taken in, in millionths of a pixel (about a
/// million pixels).
pub const MOUSE_LIMIT: i64 = 1_099_511_627_776;

/// The turn, in microradians, that one mouse sample of `delta` gives at
/// `sensitivity` over a tick of `dt` microseconds.
pub open spec fn mouse_turn(delta: int, sensitivity: int, dt: int) -> int {
    trunc_div(delta * (sensitivity * dt), SCALE * SCALE)
}

/// Largest turn one sample can give.
pub const MOUSE_TURN_LIMIT: i64 = 34_359_738_368;

/// The yaw change from all samples: moving right turns negative.
pub open spec fn yaw_sum(s: Seq<MouseMotion>, dt: int) -> int
    decreases s.len(),
{
    if s.len() == 0 {
        0
    } else {
        yaw_sum(s.drop_last(), dt) - mouse_turn(s.last().dx as int, MOUSE_SENSITIVITY_X as int, dt)
    }
}

/// The pitch change from all samples: moving down pitches negative.
pub open spec fn pitch_sum(s: Seq<MouseMotion>, dt: int) -> int
    decreases s.len(),
{
    if s.len() == 0 {
        0
    } else {
        pitch_sum(s.drop_last(), dt) - mouse_turn(
            s.last().dy as int,
            MOUSE_SENSITIVITY_Y as int,
            dt,
        )
    }
}

/// `a` held within the pitch range.
pub open spec fn clamp_pitch(a: int) -> int {
    if a < PITCH_MIN {
        PITCH_MIN as int
    } else if a > PITCH_MAX {
        PITCH_MAX as int
    } else {
        a
    }
}

/// The camera's rotation after this tick's mouse samples: the pitch (read
/// as a signed angle) moved and held within the pitch range, the yaw moved,
/// the roll kept, all three wrapped into one turn.
pub open spec fn look_rotation_spec(rotation: Vec3, s: Seq<MouseMotion>, dt: int) -> Vec3 {
    Vec3 {
        x: wrap_spec(clamp_pitch(signed_spec(rotation.x as int) + pitch_sum(s, dt))) as i64,
        y: wrap_spec(rotation.y + yaw_sum(s, dt)) as i64,
        z: wrap_spec(rotation.z as int) as i64,
    }
}

fn mouse_turn_of(delta: i64, sensitivity: i64, dt: i64) -> (r: i64)
    requires
        -MOUSE_LIMIT <= delta <= MOUSE_LIMIT,
        0 <= sensitivity <= 20_000,
        0 <= dt <= MAX_TICK,
    ensures
        r == mouse_turn(delta as int, sensitivity as int, dt as int),
        -MOUSE_TURN_LIMIT <= r <= MOUSE_TURN_LIMIT,
{
    proof {
        assert(0 <= sensitivity * dt <= 20_000_000_000) by (nonlinear_arith)
            requires
                0 <= sensitivity <= 20_000,
                0 <= dt <= 1_000_000,
        ;
    }
    let rate: i64 = sensitivity * dt;
    proof {
        let n = delta * rate;
        let bound = 21_990_232_555_520_000_000_000int;
        assert(-bound <= n <= bound) by (nonlinear_arith)
            requires
                n == delta * rate,
                -1_099_511_627_776 <= delta <= 1_099_511_627_776,
                0 <= rate <= 20_000_000_000,
                bound == 21_990_232_555_520_000_000_000int,
        ;
        crate::fixed::lemma_trunc_div_bounds(n, SCALE * SCALE);
        crate::fixed::lemma_trunc_div_monotone(n, bound, SCALE * SCALE);
        crate::fixed::lemma_trunc_div_monotone(-bound, n, SCALE * SCALE);
        assert(trunc_div(bound, SCALE * SCALE) == 21_990_232_555);
        assert(trunc_div(-bound, SCALE * SCALE) == -21_990_232_555);
    }
    mul_div(delta, rate, SCALE * SCALE)
}

/// The camera's rotation after this tick's mouse samples; see
/// `look_rotation_spec`. The sine and cosine of its yaw and pitch are what
/// `handle_player_camera` turns the rig by.
pub fn look_rotation(rotation: Vec3, motions: &Vec<MouseMotion>, dt: i64) -> (r: Vec3)
    requires
        0 <= dt <= MAX_TICK,
        forall|i: int|
            0 <= i < motions@.len() ==> -MOUSE_LIMIT <= (#[trigger] motions@[i]).dx <= MOUSE_LIMIT
                && -MOUSE_LIMIT <= motions@[i].dy <= MOUSE_LIMIT,
    ensures
        r == look_rotation_spec(rotation, motions@, dt as int),
        0 <= r.x < FULL_TURN,
        0 <= r.y < FULL_TURN,
        0 <= r.z < FULL_TURN,
{
    let mut yaw: i128 = 0;
    let mut pitch: i128 = 0;
    let mut i: usize = 0;
    while i < motions.len()
        invariant
            0 <= i <= motions@.len(),
            yaw == yaw_sum(motions@.take(i as int), dt as int),
            pitch == pitch_sum(motions@.take(i as int), dt as int),
            -(i as int) * MOUSE_TURN_LIMIT <= yaw <= (i as int) * MOUSE_TURN_LIMIT,
            -(i as int) * MOUSE_TURN_LIMIT <= pitch <= (i as int) * MOUSE_TURN_LIMIT,
            0 <= dt <= MAX_TICK,
            forall|j: int|
                0 <= j < motions@.len() ==> -MOUSE_LIMIT <= (#[trigger] motions@[j]).dx
                    <= MOUSE_LIMIT && -MOUSE_LIMIT <= motions@[j].dy <= MOUSE_LIMIT,
        decreases motions@.len() - i,
    {
        let m = motions[i];
        proof {
            assert(motions@.take(i as int + 1).drop_last() =~= motions@.take(i as int));
            assert(motions@.take(i as int + 1).last() == motions@[i as int]);
            let k = i as int;
            assert(0 <= k < 0x1_0000_0000_0000_0000);
            assert((k + 1) * 34_359_738_368 <= 0x10_0000_0000_0000_0000_0000_0000int)
                by (nonlinear_arith)
                requires
                    0 <= k < 0x1_0000_0000_0000_0000,
            ;
        }
        let dyaw: i64 = mouse_turn_of(m.dx, MOUSE_SENSITIVITY_X, dt);
        let dpitch: i64 = mouse_turn_of(m.dy, MOUSE_SENSITIVITY_Y, dt);
        yaw = yaw - dyaw as i128;
        pitch = pitch - dpitch as i128;
        i = i + 1;
    }
    proof {
        assert(motions@.take(motions@.len() as int) =~= motions@);
    }
    let current_pitch: i64 = signed_angle(rotation.x);
    let wanted: i128 = current_pitch as i128 + pitch;
    let clamped: i64 = if wanted < PITCH_MIN as i128 {
        PITCH_MIN
    } else if wanted > PITCH_MAX as i128 {
        PITCH_MAX
    } else {
        wanted as i64
    };
    Vec3 {
        x: wrap_angle(clamped as i128),
        y: wrap_angle(rotation.y as i128 + yaw),
        z: wrap_angle(rotation.z as i128),
    }
}

/// Whatever the mouse did, the camera's pitch, read as a signed angle, stays
/// within the pitch range, and every angle of the camera stays within one
/// turn.
pub proof fn lemma_pitch_stays_clamped(rotation: Vec3, s: Seq<MouseMotion>, dt: int)
    ensures
        PITCH_MIN <= signed_spec(look_rotation_spec(rotation, s, dt).x as int) <= PITCH_MAX,
        0 <= look_rotation_spec(rotation, s, dt).x < FULL_TURN,
        0 <= look_rotation_spec(rotation, s, dt).y < FULL_TURN,
        0 <= look_rotation_spec(rotation, s, dt).z < FULL_TURN,
{
    let c = clamp_pitch(signed_spec(rotation.x as int) + pitch_sum(s, dt));
    crate::angle::lemma_wrap_idempotent(c);
    crate::angle::lemma_wrap_idempotent(rotation.y + yaw_sum(s, dt));
    crate::angle::lemma_wrap_idempotent(rotation.z as int);
    crate::angle::lemma_signed_of_small(c);
    assert(signed_spec(wrap_spec(c)) == signed_spec(c));
}

/// How far an obstructed camera is pulled toward the rig's pivot, in
/// millionths: `1 - (d - 1) / max_toi` for a hit at distance `d` on an
/// obstruction ray of length `max_toi`. It is zero at one unit past the
/// ray's full length, the rig's unobstructed reach.
pub open spec fn obstruction_fraction(d: int, max_toi: int) -> int {
    SCALE - trunc_div((d - SCALE) * SCALE, max_toi)
}

/// Coordinate-wise interpolation; see `lerp_spec`.
pub open spec fn lerp_vec(a: Vec3, b: Vec3, t: int) -> Vec3 {
    Vec3 {
        x: lerp_spec(a.x as int, b.x as int, t) as i64,
        y: lerp_spec(a.y as int, b.y as int, t) as i64,
        z: lerp_spec(a.z as int, b.z as int, t) as i64,
    }
}

/// The camera's offset before rotation: the default offset, or, when the
/// obstruction ray hit something, the default offset pulled toward the
/// pivot by the obstruction fraction of the nearest hit.
pub open spec fn obstructed_offset(nearest: Option<i64>, max_toi: int) -> Vec3 {
    match nearest {
        None => camera_offset(),
        Some(d) => lerp_vec(camera_offset(), camera_ray_offset(), obstruction_fraction(d as int, max_toi)),
    }
}

proof fn lemma_fraction_bounds(d: int, max_toi: int)
    requires
        SCALE <= max_toi,
        0 <= d <= max_toi + SCALE,
    ensures
        0 <= obstruction_fraction(d, max_toi) <= 2 * SCALE,
        d >= SCALE ==> obstruction_fraction(d, max_toi) <= SCALE,
{
    let n = (d - SCALE) * SCALE;
    assert(-SCALE * max_toi <= n <= SCALE * max_toi) by (nonlinear_arith)
        requires
            n == (d - SCALE) * SCALE,
            SCALE <= max_toi,
            0 <= d <= max_toi + SCALE,
            SCALE == 1_000_000,
    ;
    crate::fixed::lemma_trunc_div_monotone(n, SCALE * max_toi, max_toi);
    crate::fixed::lemma_trunc_div_monotone(-SCALE * max_toi, n, max_toi);
    crate::fixed::lemma_trunc_div_exact(SCALE as int, max_toi);
    crate::fixed::lemma_trunc_div_exact(-SCALE, max_toi);
    assert(SCALE * max_toi == (SCALE as int) * max_toi);
    assert(-SCALE * max_toi == (-SCALE) * max_toi);
    if d >= SCALE {
        assert(n >= 0) by (nonlinear_arith)
            requires
                n == (d - SCALE) * SCALE,
                d >= SCALE,
                SCALE == 1_000_000,
        ;
        crate::fixed::lemma_trunc_div_bounds(n, max_toi);
    }
}

proof fn lemma_lerp_between(a: int, b: int, t: int)
    requires
        0 <= t <= SCALE,
    ensures
        a <= b ==> a <= lerp_spec(a, b, t) <= b,
        b <= a ==> b <= lerp_spec(a, b, t) <= a,
{
    crate::fixed::lemma_lerp_toward(a, b, t, 0);
    crate::fixed::lemma_lerp_ends(a, b);
}

proof fn lemma_lerp_near(a: int, b: int, t: int)
    requires
        0 <= t <= 2 * SCALE,
    ensures
        a >= b ==> 2 * b - a <= lerp_spec(a, b, t) <= a,
        a <= b ==> a <= lerp_spec(a, b, t) <= 2 * b - a,
{
    let k = (a - b) * (SCALE - t);
    if a >= b {
        assert(-(a - b) * SCALE <= k <= (a - b) * SCALE) by (nonlinear_arith)
            requires
                k == (a - b) * (SCALE - t),
                a >= b,
                0 <= t <= 2 * SCALE,
        ;
    } else {
        assert((a - b) * SCALE <= k <= -(a - b) * SCALE) by (nonlinear_arith)
            requires
                k == (a - b) * (SCALE - t),
                a < b,
                0 <= t <= 2 * SCALE,
        ;
    }
    crate::fixed::lemma_trunc_div_monotone(k, if a >= b { (a - b) * SCALE } else { -(a - b) * SCALE }, SCALE as int);
    crate::fixed::lemma_trunc_div_monotone(if a >= b { -(a - b) * SCALE } else { (a - b) * SCALE }, k, SCALE as int);
    crate::fixed::lemma_trunc_div_exact(a - b, SCALE as int);
    crate::fixed::lemma_trunc_div_exact(-(a - b), SCALE as int);
    assert(-(a - b) * SCALE == (-(a - b)) * SCALE);
}

/// The obstruction offset for the camera ray's hits; see
/// `obstructed_offset`.
pub fn obstructed_camera_offset(hits: &Vec<i64>, max_toi: i64) -> (r: Vec3)
    requires
        SCALE <= max_toi <= WORLD_LIMIT,
        forall|i: int| 0 <= i < hits@.len() ==> 0 <= #[trigger] hits@[i] <= max_toi,
    ensures
        r == obstructed_offset(nearest_spec(hits@), max_toi as int),
{
    let default_offset = camera_offset_vec3();
    match nearest_hit(hits) {
        None => default_offset,
        Some(d) => {
            proof {
                let n = (d - SCALE) * SCALE;
                assert(-0x1_0000_0000_0000_0000int < n < 0x1_0000_0000_0000_0000int)
                    by (nonlinear_arith)
                    requires
                        n == (d - SCALE) * SCALE,
                        0 <= d <= 1_099_511_627_776,
                        SCALE == 1_000_000,
                ;
                lemma_fraction_bounds(d as int, max_toi as int);
                crate::fixed::lemma_trunc_div_bounds(n, max_toi as int);
            }
            let fraction: i64 = SCALE - mul_div(d - SCALE, SCALE, max_toi);
            default_offset.lerp(camera_ray_offset_vec3(), fraction)
        },
    }
}

/// An obstruction at the rig's full reach leaves the camera at its default
/// offset; as the obstruction comes nearer (down to one unit), every
/// coordinate of the camera's offset moves monotonically toward the pivot,
/// never past it.
pub proof fn lemma_obstruction_pulls_in(max_toi: i64, d1: i64, d2: i64)
    requires
        SCALE <= max_toi <= WORLD_LIMIT,
        SCALE <= d1 <= d2 <= max_toi + SCALE,
    ensures
        max_toi + SCALE <= i64::MAX ==> obstruction_fraction(max_toi + SCALE, max_toi as int) == 0,
        lerp_vec(camera_offset(), camera_ray_offset(), 0) == camera_offset(),
        ({
            let c = camera_ray_offset();
            let o1 = obstructed_offset(Some(d1), max_toi as int);
            let o2 = obstructed_offset(Some(d2), max_toi as int);
            &&& (c.x <= o1.x <= o2.x || o2.x <= o1.x <= c.x)
            &&& (c.y <= o1.y <= o2.y || o2.y <= o1.y <= c.y)
            &&& (c.z <= o1.z <= o2.z || o2.z <= o1.z <= c.z)
        }),
{
    let m = max_toi as int;
    crate::fixed::lemma_trunc_div_exact(SCALE as int, m);
    assert((m + SCALE - SCALE) * SCALE == (SCALE as int) * m) by (nonlinear_arith);
    let d = camera_offset();
    let c = camera_ray_offset();
    crate::fixed::lemma_lerp_ends(d.x as int, c.x as int);
    crate::fixed::lemma_lerp_ends(d.y as int, c.y as int);
    crate::fixed::lemma_lerp_ends(d.z as int, c.z as int);
    let f1 = obstruction_fraction(d1 as int, m);
    let f2 = obstruction_fraction(d2 as int, m);
    lemma_fraction_bounds(d1 as int, m);
    lemma_fraction_bounds(d2 as int, m);
    assert((d1 - SCALE) * SCALE <= (d2 - SCALE) * SCALE) by (nonlinear_arith)
        requires
            d1 <= d2,
            SCALE == 1_000_000,
    ;
    crate::fixed::lemma_trunc_div_monotone((d1 - SCALE) * SCALE, (d2 - SCALE) * SCALE, m);
    assert(f2 <= f1);
    crate::fixed::lemma_lerp_toward(d.x as int, c.x as int, f1, f2);
    crate::fixed::lemma_lerp_toward(d.y as int, c.y as int, f1, f2);
    crate::fixed::lemma_lerp_toward(d.z as int, c.z as int, f1, f2);
    lemma_lerp_between(d.x as int, c.x as int, f2);
    lemma_lerp_between(d.y as int, c.y as int, f2);
    lemma_lerp_between(d.z as int, c.z as int, f2);
}

/// `v` turned by `pitch` about the x axis and then by `yaw` about the y
/// axis, each product rounded toward zero.
pub open spec fn rotate_spec(v: Vec3, yaw: SinCos, pitch: SinCos) -> Vec3 {
    let y1 = trunc_div(v.y * pitch.cos, SCALE as int) - trunc_div(v.z * pitch.sin, SCALE as int);
    let z1 = trunc_div(v.y * pitch.sin, SCALE as int) + trunc_div(v.z * pitch.cos, SCALE as int);
    Vec3 {
        x: (trunc_div(v.x * yaw.cos, SCALE as int) + trunc_div(z1 * yaw.sin, SCALE as int)) as i64,
        y: y1 as i64,
        z: (trunc_div(z1 * yaw.cos, SCALE as int) - trunc_div(v.x * yaw.sin, SCALE as int)) as i64,
    }
}

/// Turns `v` by yaw and pitch, given by their sines and cosines; see
/// `rotate_spec`.
pub fn rotate_yaw_pitch(v: Vec3, yaw: &SinCos, pitch: &SinCos) -> (r: Vec3)
    requires
        v.within(STATE_LIMIT as int),
        yaw.wf(),
        pitch.wf(),
    ensures
        r == rotate_spec(v, *yaw, *pitch),
        r.within(3 * STATE_LIMIT),
{
    let y1: i64 = scale_by(v.y, pitch.cos) - scale_by(v.z, pitch.sin);
    let z1: i64 = scale_by(v.y, pitch.sin) + scale_by(v.z, pitch.cos);
    let x: i64 = scale_by(v.x, yaw.cos) + scale_by(z1, yaw.sin);
    let z: i64 = scale_by(z1, yaw.cos) - scale_by(v.x, yaw.sin);
    Vec3 { x, y: y1, z }
}

/// Where the camera and its obstruction ray go this tick.
#[derive(Clone, Copy, Debug, PartialEq, Eq, Structural)]
pub struct CameraPlacement {
    /// The camera's translation relative to the player.
    pub translation: Vec3,
    /// The obstruction ray's origin relative to the player.
    pub ray_origin: Vec3,
    /// The obstruction ray's direction, not normalised.
    pub ray_direction: Vec3,
}

/// What the rig hangs from, relative to the player: the player itself while
/// scripted; while bailed, the ragdolled body (its translation `body` less
/// its rest offset).
pub open spec fn rig_anchor(bailed: bool, body: Vec3) -> Vec3 {
    if bailed {
        Vec3 { x: body.x, y: (body.y - body_offset().y) as i64, z: body.z }
    } else {
        Vec3 { x: 0, y: 0, z: 0 }
    }
}

/// The camera sits at the anchor plus the rotated (possibly obstructed)
/// offset; the ray starts at the anchor's pivot and points along the rotated
/// default offset, measured from the pivot's height.
pub open spec fn placement_spec(bailed: bool, body: Vec3, offset: Vec3, yaw: SinCos, pitch: SinCos) -> CameraPlacement {
    let a = rig_anchor(bailed, body);
    let o = rotate_spec(offset, yaw, pitch);
    let d = rotate_spec(camera_offset(), yaw, pitch);
    CameraPlacement {
        translation: Vec3 { x: (a.x + o.x) as i64, y: (a.y + o.y) as i64, z: (a.z + o.z) as i64 },
        ray_origin: Vec3 { x: a.x, y: (a.y + camera_ray_offset().y) as i64, z: a.z },
        ray_direction: Vec3 { x: d.x, y: (d.y - camera_ray_offset().y) as i64, z: d.z },
    }
}

/// Turns the camera by this tick's mouse samples (see `look_rotation`),
/// pulls it in when the obstruction ray hit something, and places it and the
/// ray around the player, or around the ragdolled body (at
/// `body_translation`) while bailed. `yaw` and `pitch` are the sines and
/// cosines of the camera's new yaw and pitch.
pub fn handle_player_camera(
    camera: &mut PlayerCamera,
    player: &Player,
    motions: &Vec<MouseMotion>,
    dt: i64,
    hits: &Vec<i64>,
    max_toi: i64,
    body_translation: Vec3,
    yaw: &SinCos,
    pitch: &SinCos,
) -> (r: CameraPlacement)
    requires
        0 <= dt <= MAX_TICK,
        forall|i: int|
            0 <= i < motions@.len() ==> -MOUSE_LIMIT <= (#[trigger] motions@[i]).dx <= MOUSE_LIMIT
                && -MOUSE_LIMIT <= motions@[i].dy <= MOUSE_LIMIT,
        SCALE <= max_toi <= WORLD_LIMIT,
        forall|i: int| 0 <= i < hits@.len() ==> 0 <= #[trigger] hits@[i] <= max_toi,
        body_translation.within(STATE_LIMIT as int),
        yaw.wf(),
        pitch.wf(),
    ensures
        final(camera).rotation == look_rotation_spec(old(camera).rotation, motions@, dt as int),
        r == placement_spec(
            player.bailed,
            body_translation,
            obstructed_offset(nearest_spec(hits@), max_toi as int),
            *yaw,
            *pitch,
        ),
{
    camera.rotation = look_rotation(camera.rotation, motions, dt);
    let offset = obstructed_camera_offset(hits, max_toi);
    proof {
        let n = nearest_spec(hits@);
        if let Some(d) = n {
            crate::controls::player::lemma_nearest_in_range(hits@, max_toi as int);
            lemma_fraction_bounds(d as int, max_toi as int);
            let f = obstruction_fraction(d as int, max_toi as int);
            let (dd, cc) = (camera_offset(), camera_ray_offset());
            lemma_lerp_near(dd.x as int, cc.x as int, f);
            lemma_lerp_near(dd.y as int, cc.y as int, f);
            lemma_lerp_near(dd.z as int, cc.z as int, f);
        }
    }
    let turned = rotate_yaw_pitch(offset, yaw, pitch);
    let turned_default = rotate_yaw_pitch(camera_offset_vec3(), yaw, pitch);
    let anchor = if player.bailed {
        Vec3 { x: body_translation.x, y: body_translation.y - BODY_OFFSET_Y, z: body_translation.z }
    } else {
        Vec3::zero()
    };
    CameraPlacement {
        translation: Vec3 { x: anchor.x + turned.x, y: anchor.y + turned.y, z: anchor.z + turned.z },
        ray_origin: Vec3 { x: anchor.x, y: anchor.y + CAMERA_RAY_OFFSET_Y, z: anchor.z },
        ray_direction: Vec3 { x: turned_default.x, y: turned_default.y - CAMERA_RAY_OFFSET_Y, z: turned_default.z },
    }
}

} // verus!
