use ragdoll_controller::angle::{signed_angle, wrap_angle, FULL_TURN};
use ragdoll_controller::controls::camera::{
    handle_player_camera, look_rotation, obstructed_camera_offset, rotate_yaw_pitch,
    CameraPlacement, PITCH_MAX, PITCH_MIN,
};
use ragdoll_controller::controls::input::{KeyState, MouseMotion, SinCos};
use ragdoll_controller::controls::player::{
    handle_player_is_on_floor, handle_player_movement, nearest_hit, turned_rotation,
    MAX_WALKING_VELOCITY,
};
use ragdoll_controller::entities::player::{
    handle_player_bail, BailAction, Player, PlayerBailEvent, PlayerBody, PlayerCamera,
};
use ragdoll_controller::entities::EntityCollisionLayers;
use ragdoll_controller::fixed::{lerp, mul_div, Vec3};

const NO_KEYS: KeyState = KeyState {
    forward: false,
    back: false,
    left: false,
    right: false,
    jump_just_pressed: false,
};

const FACING_NORTH: SinCos = SinCos { sin: 0, cos: 1_000_000 };

fn v(x: i64, y: i64, z: i64) -> Vec3 {
    Vec3 { x, y, z }
}

fn player_on_floor(velocity: Vec3) -> Player {
    let mut p = Player::spawn(None, None);
    p.is_on_floor = true;
    p.set_velocity(velocity);
    p
}

#[test]
fn wrap_brings_angles_into_one_turn() {
    assert_eq!(wrap_angle(-1), FULL_TURN - 1);
    assert_eq!(wrap_angle(FULL_TURN as i128), 0);
    assert_eq!(wrap_angle(3 * FULL_TURN as i128 + 7), 7);
    assert_eq!(wrap_angle(-(2 * FULL_TURN as i128) - 5), FULL_TURN - 5);
    for a in [-123_456_789i128, -1, 0, 1, 6_283_184, 6_283_185, 99_999_999_999] {
        let w = wrap_angle(a);
        assert!(0 <= w && w < FULL_TURN);
        assert_eq!(wrap_angle(w as i128), w);
    }
}

#[test]
fn signed_angle_reads_the_upper_half_as_negative() {
    assert_eq!(signed_angle(FULL_TURN - 5), -5);
    assert_eq!(signed_angle(5), 5);
    assert_eq!(signed_angle(-5), -5);
}

#[test]
fn mul_div_and_lerp_round_toward_zero() {
    assert_eq!(mul_div(-7, 1, 2), -3);
    assert_eq!(mul_div(7, 1, 2), 3);
    assert_eq!(lerp(0, 392_699, 200_000), 78_540);
    assert_eq!(lerp(5, 9, 0), 5);
    assert_eq!(lerp(5, 9, 1_000_000), 9);
}

#[test]
fn collision_layers_have_one_bit_each() {
    assert_eq!(EntityCollisionLayers::Ground.to_bits(), 1);
    assert_eq!(EntityCollisionLayers::Interaction.to_bits(), 2);
    assert_eq!(EntityCollisionLayers::Player.to_bits(), 4);
    assert_eq!(EntityCollisionLayers::Props.to_bits(), 8);
}

#[test]
fn spawn_uses_defaults_and_given_values() {
    let p = Player::spawn(None, None);
    assert_eq!(p.get_location(), v(0, 0, 0));
    assert_eq!(p.get_rotation(), v(0, 0, 0));
    assert_eq!(p.get_velocity(), v(0, 0, 0));
    assert!(!p.bailed && !p.is_on_floor);
    let q = Player::spawn(Some(v(0, 250_000, 5_000_000)), Some(v(1, 2, 3)));
    assert_eq!(q.get_location(), v(0, 250_000, 5_000_000));
    assert_eq!(q.get_rotation(), v(1, 2, 3));
}

#[test]
fn nearest_hit_takes_the_least_distance() {
    assert_eq!(nearest_hit(&vec![]), None);
    assert_eq!(nearest_hit(&vec![900_000, 400_000, 700_000]), Some(400_000));
    assert_eq!(nearest_hit(&vec![5]), Some(5));
}

#[test]
fn floor_hit_short_of_the_ray_snaps_up_by_the_difference() {
    let mut p = Player::spawn(Some(v(0, 2_000_000, 0)), None);
    p.set_velocity(v(3, -40_000, 4));
    handle_player_is_on_floor(&mut p, &vec![1_100_000], 1_150_000);
    assert!(p.is_on_floor);
    assert_eq!(p.get_location(), v(0, 2_050_000, 0));
    assert_eq!(p.get_velocity(), v(3, 0, 4));
}

#[test]
fn floor_hit_within_epsilon_does_not_move_the_player() {
    let mut p = Player::spawn(Some(v(0, 2_000_000, 0)), None);
    p.set_velocity(v(0, 25_000, 0));
    handle_player_is_on_floor(&mut p, &vec![1_145_000], 1_150_000);
    assert!(p.is_on_floor);
    assert_eq!(p.get_location(), v(0, 2_000_000, 0));
    assert_eq!(p.get_velocity(), v(0, 25_000, 0));
    handle_player_is_on_floor(&mut p, &vec![1_140_000], 1_150_000);
    assert_eq!(p.get_location(), v(0, 2_000_000, 0));
}

#[test]
fn floor_hit_uses_the_nearest_of_several() {
    let mut p = Player::spawn(None, None);
    handle_player_is_on_floor(&mut p, &vec![1_150_000, 1_000_000], 1_150_000);
    assert_eq!(p.get_location(), v(0, 150_000, 0));
}

#[test]
fn no_floor_hit_leaves_the_player_airborne() {
    let mut p = player_on_floor(v(0, -10, 0));
    handle_player_is_on_floor(&mut p, &vec![], 1_150_000);
    assert!(!p.is_on_floor);
    assert_eq!(p.get_velocity(), v(0, -10, 0));
}

#[test]
fn velocity_decays_without_input() {
    let mut p = player_on_floor(v(100_000, 0, -50_000));
    let mut body = PlayerBody { lean: 0 };
    handle_player_movement(&mut p, &mut body, &NO_KEYS, 100_000, &FACING_NORTH);
    assert_eq!(p.get_velocity(), v(90_000, 0, -45_000));
    assert_eq!(p.get_location(), v(90_000, 0, -45_000));
    let mut last = 90_000i64 * 90_000 + 45_000 * 45_000;
    for _ in 0..50 {
        handle_player_movement(&mut p, &mut body, &NO_KEYS, 100_000, &FACING_NORTH);
        let u = p.get_velocity();
        let now = u.x * u.x + u.y * u.y + u.z * u.z;
        assert!(now < last || last == 0);
        last = now;
    }
}

#[test]
fn tiny_velocity_still_decays() {
    let mut p = player_on_floor(v(1, 0, -1));
    let mut body = PlayerBody { lean: 0 };
    handle_player_movement(&mut p, &mut body, &NO_KEYS, 16_000, &FACING_NORTH);
    assert_eq!(p.get_velocity(), v(0, 0, 0));
}

#[test]
fn jump_is_added_only_on_the_press_tick() {
    let mut p = player_on_floor(v(0, 0, 0));
    let mut body = PlayerBody { lean: 0 };
    let press = KeyState { jump_just_pressed: true, ..NO_KEYS };
    handle_player_movement(&mut p, &mut body, &press, 100_000, &FACING_NORTH);
    assert_eq!(p.get_velocity(), v(0, 500_000, 0));
    // The key is still down on the next tick, but it did not go down then.
    handle_player_movement(&mut p, &mut body, &NO_KEYS, 100_000, &FACING_NORTH);
    assert_eq!(p.get_velocity(), v(0, 450_000, 0));
}

#[test]
fn no_jump_while_airborne() {
    let mut p = Player::spawn(None, None);
    let mut body = PlayerBody { lean: 0 };
    let press = KeyState { jump_just_pressed: true, ..NO_KEYS };
    handle_player_movement(&mut p, &mut body, &press, 100_000, &FACING_NORTH);
    assert_eq!(p.get_velocity(), v(0, -180_000, 0));
    assert_eq!(p.get_location(), v(0, -180_000, 0));
}

#[test]
fn walking_forward_approaches_equilibrium_below_the_walking_cap() {
    let mut p = Player::spawn(Some(v(0, 250_000, 5_000_000)), None);
    p.is_on_floor = true;
    let mut body = PlayerBody { lean: 0 };
    let forward = KeyState { forward: true, ..NO_KEYS };
    let expected = [
        -27_000, -51_300, -73_170, -92_853, -110_567, -126_510, -140_859, -153_773, -165_395,
        -175_855,
    ];
    for want in expected {
        handle_player_movement(&mut p, &mut body, &forward, 100_000, &FACING_NORTH);
        assert_eq!(p.get_velocity(), v(0, 0, want));
        assert!(want.abs() < MAX_WALKING_VELOCITY);
    }
    assert_eq!(p.get_location(), v(0, 250_000, 3_882_718));
}

#[test]
fn walking_follows_the_heading() {
    let mut p = player_on_floor(v(0, 0, 0));
    let mut body = PlayerBody { lean: 0 };
    let forward = KeyState { forward: true, ..NO_KEYS };
    let facing_west = SinCos { sin: 1_000_000, cos: 0 };
    handle_player_movement(&mut p, &mut body, &forward, 100_000, &facing_west);
    assert_eq!(p.get_velocity(), v(-27_000, 0, 0));
}

#[test]
fn turn_keys_turn_and_lean() {
    let left = KeyState { left: true, ..NO_KEYS };
    let right = KeyState { right: true, ..NO_KEYS };
    assert_eq!(turned_rotation(v(0, 0, 0), &left, 100_000), v(0, 123_370, 0));
    assert_eq!(turned_rotation(v(0, 0, 0), &right, 100_000), v(0, FULL_TURN - 123_370, 0));
    assert_eq!(turned_rotation(v(9, 5, -1), &NO_KEYS, 100_000), v(0, 5, FULL_TURN - 1));
    let mut p = player_on_floor(v(0, 0, 0));
    let mut body = PlayerBody { lean: 0 };
    handle_player_movement(&mut p, &mut body, &left, 100_000, &FACING_NORTH);
    assert_eq!(p.get_rotation(), v(0, 123_370, 0));
    assert_eq!(body.lean, 78_540);
    handle_player_movement(&mut p, &mut body, &NO_KEYS, 100_000, &FACING_NORTH);
    assert_eq!(body.lean, 62_832);
}

#[test]
fn bailed_player_does_not_move() {
    let mut p = player_on_floor(v(10, 20, 30));
    p.bailed = true;
    let mut body = PlayerBody { lean: 5 };
    let keys = KeyState { forward: true, left: true, ..NO_KEYS };
    handle_player_movement(&mut p, &mut body, &keys, 100_000, &FACING_NORTH);
    assert_eq!(p.get_velocity(), v(10, 20, 30));
    assert_eq!(p.get_location(), v(0, 0, 0));
    assert_eq!(body.lean, 5);
}

#[test]
fn bail_and_recover_round_trip() {
    let mut p = Player::spawn(Some(v(1_000_000, 2_000_000, 3_000_000)), None);
    p.set_velocity(v(10_000, 0, -5_000));
    let bail = PlayerBailEvent((7, true));
    let action = handle_player_bail(&mut p, &bail, 16_000, v(0, 0, 0));
    assert_eq!(action, BailAction::Ragdoll { linear_velocity: v(625_000, 0, -312_500) });
    assert!(p.bailed);
    assert_eq!(p.get_velocity(), v(0, 0, 0));
    let again = handle_player_bail(&mut p, &bail, 16_000, v(0, 0, 0));
    assert_eq!(again, BailAction::Unchanged);
    let recover = PlayerBailEvent((7, false));
    let action = handle_player_bail(&mut p, &recover, 16_000, v(1_000_000, 3_000_000, 3_000_000));
    assert_eq!(action, BailAction::Recover);
    assert!(!p.bailed);
    assert_eq!(p.get_location(), v(1_000_000, 2_000_000, 3_000_000));
    assert_eq!(p.get_velocity(), v(0, 0, 0));
}

#[test]
fn recovering_takes_the_location_from_the_moved_body() {
    let mut p = Player::spawn(None, None);
    p.bailed = true;
    let action = handle_player_bail(&mut p, &PlayerBailEvent((1, false)), 0, v(4, 1_000_009, -6));
    assert_eq!(action, BailAction::Recover);
    assert_eq!(p.get_location(), v(4, 9, -6));
}

#[test]
fn mouse_look_turns_and_clamps_pitch() {
    let r = look_rotation(v(0, 0, 0), &vec![MouseMotion { dx: 10_000_000, dy: 0 }], 100_000);
    assert_eq!(r, v(0, FULL_TURN - 18_850, 0));
    let down = vec![MouseMotion { dx: 0, dy: 1_000_000_000_000 }; 5];
    let r = look_rotation(v(0, 0, 0), &down, 1_000_000);
    assert_eq!(signed_angle(r.x), PITCH_MIN);
    let up = vec![MouseMotion { dx: 0, dy: -1_000_000_000_000 }; 5];
    let r = look_rotation(r, &up, 1_000_000);
    assert_eq!(r.x, PITCH_MAX);
    let small = vec![MouseMotion { dx: 0, dy: 1_000_000 }];
    let r = look_rotation(v(0, 0, 0), &small, 1_000_000);
    assert_eq!(r.x, FULL_TURN - 12_566);
    assert_eq!(signed_angle(r.x), -12_566);
}

#[test]
fn camera_offset_moves_toward_the_pivot_as_obstruction_nears() {
    let max = 10_000_000;
    assert_eq!(obstructed_camera_offset(&vec![], max), v(0, 1_750_000, 10_000_000));
    assert_eq!(obstructed_camera_offset(&vec![max], max), v(0, 1_750_000, 9_000_000));
    assert_eq!(obstructed_camera_offset(&vec![5_500_000], max), v(0, 1_750_000, 4_500_000));
    assert_eq!(obstructed_camera_offset(&vec![1_000_000], max), v(0, 1_750_000, 0));
    let mut last = i64::MAX;
    for d in (1_000_000..=10_000_000).rev().step_by(250_000) {
        let z = obstructed_camera_offset(&vec![d], max).z;
        assert!(0 <= z && z <= last);
        last = z;
    }
}

#[test]
fn rotation_by_a_quarter_yaw() {
    let quarter = SinCos { sin: 1_000_000, cos: 0 };
    let level = SinCos { sin: 0, cos: 1_000_000 };
    assert_eq!(rotate_yaw_pitch(v(0, 1_750_000, 10_000_000), &quarter, &level), v(10_000_000, 1_750_000, 0));
    let pitch_down = SinCos { sin: -1_000_000, cos: 0 };
    assert_eq!(rotate_yaw_pitch(v(0, 0, 10_000_000), &level, &pitch_down), v(0, 10_000_000, 0));
}

#[test]
fn camera_follows_player_or_ragdolled_body() {
    let level = SinCos { sin: 0, cos: 1_000_000 };
    let mut camera = PlayerCamera { rotation: v(0, 0, 0) };
    let mut p = Player::spawn(None, None);
    let placed = handle_player_camera(&mut camera, &p, &vec![], 16_000, &vec![], 10_000_000, v(0, 1_000_000, 0), &level, &level);
    assert_eq!(
        placed,
        CameraPlacement {
            translation: v(0, 1_750_000, 10_000_000),
            ray_origin: v(0, 1_750_000, 0),
            ray_direction: v(0, 0, 10_000_000),
        }
    );
    p.bailed = true;
    let placed = handle_player_camera(&mut camera, &p, &vec![], 16_000, &vec![5_500_000], 10_000_000, v(2_000_000, 1_500_000, -1_000_000), &level, &level);
    assert_eq!(placed.translation, v(2_000_000, 2_250_000, 3_500_000));
    assert_eq!(placed.ray_origin, v(2_000_000, 2_250_000, -1_000_000));
    assert_eq!(placed.ray_direction, v(0, 0, 10_000_000));
    assert_eq!(camera.rotation, v(0, 0, 0));
}
