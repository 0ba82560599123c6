//! End-to-end checks of the overlay library: scenario layouts with exact
//! expected fixed-point values, the color rule, the driver's skip behavior,
//! and the mirror symmetry of the two hands, all on concrete inputs.

use xr_overlay::algebra::{Quat, Vec2, Vec3, rotor_x, quat_mul, quat_rotate};
use xr_overlay::fixed::fx_mul;
use xr_overlay::controls::{activation_color, ButtonState, ControllerSnapshot, Hand, OverlayColor, Pose};
use xr_overlay::driver::draw_gizmos;
use xr_overlay::layout::{layout, Primitive};

const FX_ONE: i64 = 1_000_000;

fn identity_pose() -> Pose {
    Pose {
        position: Vec3 { x: 0, y: 0, z: 0 },
        orientation: Quat { x: 0, y: 0, z: 0, w: FX_ONE },
    }
}

fn idle_snapshot() -> ControllerSnapshot {
    ControllerSnapshot {
        pose: identity_pose(),
        primary_button: ButtonState::Released,
        secondary_button: ButtonState::Released,
        thumbstick: Vec2 { x: 0, y: 0 },
        thumbstick_touched: false,
        trigger: 0,
        trigger_touched: false,
    }
}

fn color_of(p: &Primitive) -> OverlayColor {
    match *p {
        Primitive::Rect { color, .. } => color,
        Primitive::Circle { color, .. } => color,
        Primitive::Cuboid { color, .. } => color,
    }
}

fn position_of(p: &Primitive) -> Vec3 {
    match *p {
        Primitive::Rect { position, .. } => position,
        Primitive::Circle { position, .. } => position,
        Primitive::Cuboid { position, .. } => position,
    }
}

#[test]
fn fixed_point_multiplication() {
    assert_eq!(fx_mul(2_000_000, 500_000), 1_000_000);
    assert_eq!(fx_mul(1_500_000, FX_ONE), 1_500_000);
    assert_eq!(fx_mul(-1, 1), 0);
    assert_eq!(fx_mul(-2_000_000, 500_000), -1_000_000);
    assert_eq!(fx_mul(123, 456), 0);
}

#[test]
fn quaternion_identity_product() {
    let id = Quat { x: 0, y: 0, z: 0, w: FX_ONE };
    let q = Quat { x: 501_213, y: 0, z: 0, w: 865_324 };
    assert_eq!(quat_mul(id, q), q);
    assert_eq!(quat_mul(q, id), q);
}

#[test]
fn rotation_about_x_keeps_the_x_axis() {
    let q = Quat { x: 501_213, y: 0, z: 0, w: 865_324 };
    let r = quat_rotate(q, Vec3 { x: 10_000, y: 0, z: 0 });
    assert_eq!(r, Vec3 { x: 9_999, y: 0, z: 0 });
}

#[test]
fn rotor_at_zero_is_identity() {
    assert_eq!(rotor_x(0), Quat { x: 0, y: 0, z: 0, w: FX_ONE });
}

#[test]
fn rotor_at_full_pull() {
    assert_eq!(rotor_x(-750_000), Quat { x: -366_211, y: 0, z: 0, w: 930_511 });
}

#[test]
fn activation_color_rules() {
    assert_eq!(activation_color(ButtonState::Released, false), OverlayColor::Idle);
    assert_eq!(activation_color(ButtonState::Released, true), OverlayColor::Touched);
    assert_eq!(activation_color(ButtonState::Touched, false), OverlayColor::Touched);
    assert_eq!(activation_color(ButtonState::Touched, true), OverlayColor::Touched);
    assert_eq!(activation_color(ButtonState::Pressed, false), OverlayColor::Pressed);
    assert_eq!(activation_color(ButtonState::Pressed, true), OverlayColor::Pressed);
}

#[test]
fn layout_is_deterministic() {
    let mut s = idle_snapshot();
    s.pose.position = Vec3 { x: 123_456, y: -789, z: 42 };
    s.trigger = 250_000;
    s.thumbstick = Vec2 { x: -400_000, y: 650_000 };
    s.primary_button = ButtonState::Touched;
    let a = layout(Hand::Left, &s);
    let b = layout(Hand::Left, &s);
    assert_eq!(a, b);
}

#[test]
fn right_hand_pressed_primary_scenario() {
    let mut s = idle_snapshot();
    s.primary_button = ButtonState::Pressed;
    let prims = layout(Hand::Right, &s);
    assert_eq!(prims.len(), 7);

    // grip rectangle at the tracking point, tilted about X
    match prims[0] {
        Primitive::Rect { position, orientation, extents, color } => {
            assert_eq!(position, Vec3 { x: 0, y: 0, z: 0 });
            assert_eq!(orientation, Quat { x: -644_218, y: 0, z: 0, w: 764_842 });
            assert_eq!(extents, Vec2 { x: 50_000, y: 100_000 });
            assert_eq!(color, OverlayColor::Identify);
        }
        _ => panic!("expected the grip rectangle first"),
    }
    // face circle
    match prims[1] {
        Primitive::Circle { position, normal, radius, color } => {
            assert_eq!(position, Vec3 { x: 0, y: -9_664, z: -74_373 });
            assert_eq!(normal, Vec3 { x: 0, y: -867_422, z: 497_571 });
            assert_eq!(radius, 40_000);
            assert_eq!(color, OverlayColor::Identify);
        }
        _ => panic!("expected the face circle second"),
    }
    // secondary button idle, primary pressed
    assert_eq!(color_of(&prims[2]), OverlayColor::Idle);
    assert_eq!(color_of(&prims[3]), OverlayColor::Pressed);
    assert_eq!(position_of(&prims[2]), Vec3 { x: -24_999, y: -14_639, z: -83_046 });
    assert_eq!(position_of(&prims[3]), Vec3 { x: -24_999, y: -4_689, z: -65_700 });
    // joystick base and cap, idle
    assert_eq!(color_of(&prims[4]), OverlayColor::Idle);
    assert_eq!(color_of(&prims[5]), OverlayColor::Idle);
    assert_eq!(position_of(&prims[4]), Vec3 { x: 19_999, y: -9_664, z: -74_373 });
    assert_eq!(position_of(&prims[5]), Vec3 { x: 19_999, y: -991, z: -79_348 });
    // trigger box: no pull, so it keeps the face orientation exactly
    match prims[6] {
        Primitive::Cuboid { position, orientation, extents, color } => {
            assert_eq!(orientation, Quat { x: 501_213, y: 0, z: 0, w: 865_324 });
            assert_eq!(position, Vec3 { x: 0, y: -27_011, z: -64_422 });
            assert_eq!(extents, Vec3 { x: 10_000, y: 20_000, z: 30_000 });
            assert_eq!(color, OverlayColor::Idle);
        }
        _ => panic!("expected the trigger box last"),
    }
}

#[test]
fn full_trigger_pull_scenario() {
    let mut s = idle_snapshot();
    s.primary_button = ButtonState::Pressed;
    s.trigger = FX_ONE;
    let prims = layout(Hand::Right, &s);
    assert_eq!(prims.len(), 7);
    match prims[6] {
        Primitive::Cuboid { position, orientation, .. } => {
            // the face orientation composed with the full-pull rotor, and the
            // box displaced along the tipped forward axis
            assert_eq!(orientation, Quat { x: 149_493, y: 0, z: 0, w: 988_742 });
            assert_eq!(
                orientation,
                quat_mul(
                    Quat { x: 501_213, y: 0, z: 0, w: 865_324 },
                    Quat { x: -366_211, y: 0, z: 0, w: 930_511 },
                )
            );
            assert_eq!(position, Vec3 { x: 0, y: -15_575, z: -55_268 });
        }
        _ => panic!("expected the trigger box last"),
    }
}

#[test]
fn stick_deflection_moves_the_cap_laterally() {
    let mut s = idle_snapshot();
    s.thumbstick = Vec2 { x: FX_ONE, y: 0 };
    s.thumbstick_touched = true;
    let prims = layout(Hand::Right, &s);
    assert_eq!(position_of(&prims[5]), Vec3 { x: 29_998, y: -991, z: -79_348 });
    assert_eq!(color_of(&prims[4]), OverlayColor::Touched);
    assert_eq!(color_of(&prims[5]), OverlayColor::Touched);
}

#[test]
fn centered_stick_leaves_cap_at_rest() {
    let s = idle_snapshot();
    let prims = layout(Hand::Right, &s);
    // cap sits at its rest offset: the base position plus only the rotated
    // fixed depth, no deflection displacement
    assert_eq!(position_of(&prims[4]), Vec3 { x: 19_999, y: -9_664, z: -74_373 });
    assert_eq!(position_of(&prims[5]), Vec3 { x: 19_999, y: -991, z: -79_348 });
}

fn mirror_vec(v: Vec3) -> Vec3 {
    Vec3 { x: -v.x, y: v.y, z: v.z }
}

fn mirror_quat(q: Quat) -> Quat {
    Quat { x: q.x, y: -q.y, z: -q.z, w: q.w }
}

fn mirror_primitive(p: Primitive) -> Primitive {
    match p {
        Primitive::Rect { position, orientation, extents, color } => Primitive::Rect {
            position: mirror_vec(position),
            orientation: mirror_quat(orientation),
            extents,
            color,
        },
        Primitive::Circle { position, normal, radius, color } => Primitive::Circle {
            position: mirror_vec(position),
            normal: mirror_vec(normal),
            radius,
            color,
        },
        Primitive::Cuboid { position, orientation, extents, color } => Primitive::Cuboid {
            position: mirror_vec(position),
            orientation: mirror_quat(orientation),
            extents,
            color,
        },
    }
}

#[test]
fn hands_mirror_each_other() {
    let mut s = idle_snapshot();
    s.pose.position = Vec3 { x: 250_000, y: -125_000, z: 3_000_000 };
    // a quarter turn about the vertical axis
    s.pose.orientation = Quat { x: 0, y: 707_107, z: 0, w: 707_107 };
    s.thumbstick = Vec2 { x: 0, y: 600_000 };
    s.thumbstick_touched = true;
    s.trigger = 330_000;
    s.secondary_button = ButtonState::Touched;

    let mut reflected = s;
    reflected.pose.position = mirror_vec(s.pose.position);
    reflected.pose.orientation = mirror_quat(s.pose.orientation);

    let left = layout(Hand::Left, &s);
    let right = layout(Hand::Right, &reflected);
    assert_eq!(left.len(), right.len());
    for i in 0..left.len() {
        assert_eq!(right[i], mirror_primitive(left[i]));
    }
}

#[test]
fn untracked_hand_is_skipped() {
    let mut s = idle_snapshot();
    s.primary_button = ButtonState::Pressed;
    let right_only = draw_gizmos(Some(s), None);
    assert_eq!(right_only.len(), 7);
    assert_eq!(right_only, layout(Hand::Right, &s));

    let none = draw_gizmos(None, None);
    assert_eq!(none.len(), 0);

    let both = draw_gizmos(Some(s), Some(s));
    assert_eq!(both.len(), 14);
    assert_eq!(both[..7], layout(Hand::Right, &s)[..]);
    assert_eq!(both[7..], layout(Hand::Left, &s)[..]);
}
