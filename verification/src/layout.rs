//! The frame layout engine: one hand's snapshot becomes the ordered list of
//! seven drawable primitives — grip rectangle, face circle, secondary and
//! primary button circles, joystick base and cap circles, and the trigger
//! box. The two hands are exact mirror images: every lateral offset flips
//! sign with the hand.

use vstd::prelude::*;
use crate::fixed::{FX_ONE, fm, fx_mul, lemma_fm_bound};
use crate::algebra::{
    Vec3, Vec2, Quat, Vec3Spec, Vec2Spec, QuatSpec, vec3_in, quat_in, vadd, vscale, qmul,
    qrotate, vec3_add, vec3_scale, quat_mul, quat_rotate, rotor_x, rotor_x_spec, lemma_qmul_in,
};
use crate::algebra::{
    mirror_vec, mirror_quat, lemma_qmul_mirror, lemma_qrotate_mirror, lemma_qmul_identity,
    lemma_qrotate_zero, lemma_rotor_zero,
};
use crate::controls::{
    Hand, ButtonState, OverlayColor, ControllerSnapshot, SnapshotSpec, PoseSpec, snapshot_wf,
    activation_color, activation_color_spec,
};
use vstd::arithmetic::div_mod::{lemma_div_is_ordered, lemma_div_pos_is_pos};

verus! {

/// Radius of the face identification circle.
pub const FACE_RADIUS: i64 = 40_000;

/// Radius of each button circle.
pub const BUTTON_RADIUS: i64 = 7_500;

/// Radius of the joystick base circle.
pub const JOYSTICK_BASE_RADIUS: i64 = 14_000;

/// Radius of the joystick cap circle.
pub const JOYSTICK_CAP_RADIUS: i64 = 5_000;

/// Factor that turns a stick deflection into a cap displacement.
pub const STICK_SCALE: i64 = 10_000;

/// Radians of added trigger rotation per unit of trigger pull (negative:
/// the wedge tips forward).
pub const TRIGGER_COEF: i64 = -750_000;

/// Tilt from the tracked pose to the grip marker: a fixed rotation about X.
pub open spec fn grip_tilt_spec() -> QuatSpec {
    QuatSpec { x: -644_218, y: 0, z: 0, w: 764_842 }
}

/// Tilt from the tracked pose to the face plane.
pub open spec fn face_tilt_spec() -> QuatSpec {
    QuatSpec { x: 501_213, y: 0, z: 0, w: 865_324 }
}

/// Direction in which the face sits relative to the tracking point.
pub open spec fn face_reach_tilt_spec() -> QuatSpec {
    QuatSpec { x: -751_280, y: 0, z: 0, w: 659_983 }
}

/// Distance from the tracking point to the face, along the tilted up axis.
pub open spec fn face_reach_spec() -> Vec3Spec {
    Vec3Spec { x: 0, y: 75_000, z: 0 }
}

/// The local Z axis, one unit long.
pub open spec fn axis_z_spec() -> Vec3Spec {
    Vec3Spec { x: 0, y: 0, z: FX_ONE as int }
}

/// Width and height of the grip rectangle.
pub open spec fn grip_extents_spec() -> Vec2Spec {
    Vec2Spec { x: 50_000, y: 100_000 }
}

/// Extents of the trigger box.
pub open spec fn trigger_extents_spec() -> Vec3Spec {
    Vec3Spec { x: 10_000, y: 20_000, z: 30_000 }
}

/// Local offset from the face to the trigger box, along the tilted forward
/// axis.
pub open spec fn trigger_reach_spec() -> Vec3Spec {
    Vec3Spec { x: 0, y: 0, z: 20_000 }
}

/// Local offset from the face to the secondary (upper-row) button; the
/// lateral part flips with the hand.
pub open spec fn button_secondary_offset_spec(hand: Hand) -> Vec3Spec {
    Vec3Spec { x: if hand is Left { 25_000 } else { -25_000 }, y: -10_000, z: 0 }
}

/// Local offset from the face to the primary (lower-row) button.
pub open spec fn button_primary_offset_spec(hand: Hand) -> Vec3Spec {
    Vec3Spec { x: if hand is Left { 25_000 } else { -25_000 }, y: 10_000, z: 0 }
}

/// Local offset from the face to the joystick base.
pub open spec fn joystick_base_offset_spec(hand: Hand) -> Vec3Spec {
    Vec3Spec { x: if hand is Left { -20_000 } else { 20_000 }, y: 0, z: 0 }
}

/// Local offset from the face to the joystick cap at rest: the base offset
/// plus a fixed depth.
pub open spec fn joystick_cap_rest_offset_spec(hand: Hand) -> Vec3Spec {
    Vec3Spec { x: if hand is Left { -20_000 } else { 20_000 }, y: 0, z: -10_000 }
}

pub fn grip_tilt() -> (r: Quat)
    ensures
        r@ == grip_tilt_spec(),
        quat_in(r@, FX_ONE as int),
{
    Quat { x: -644_218, y: 0, z: 0, w: 764_842 }
}

pub fn face_tilt() -> (r: Quat)
    ensures
        r@ == face_tilt_spec(),
        quat_in(r@, FX_ONE as int),
{
    Quat { x: 501_213, y: 0, z: 0, w: 865_324 }
}

pub fn face_reach_tilt() -> (r: Quat)
    ensures
        r@ == face_reach_tilt_spec(),
        quat_in(r@, FX_ONE as int),
{
    Quat { x: -751_280, y: 0, z: 0, w: 659_983 }
}

pub fn button_secondary_offset(hand: Hand) -> (r: Vec3)
    ensures
        r@ == button_secondary_offset_spec(hand),
        vec3_in(r@, FX_ONE as int),
{
    match hand {
        Hand::Left => Vec3 { x: 25_000, y: -10_000, z: 0 },
        Hand::Right => Vec3 { x: -25_000, y: -10_000, z: 0 },
    }
}

pub fn button_primary_offset(hand: Hand) -> (r: Vec3)
    ensures
        r@ == button_primary_offset_spec(hand),
        vec3_in(r@, FX_ONE as int),
{
    match hand {
        Hand::Left => Vec3 { x: 25_000, y: 10_000, z: 0 },
        Hand::Right => Vec3 { x: -25_000, y: 10_000, z: 0 },
    }
}

pub fn joystick_base_offset(hand: Hand) -> (r: Vec3)
    ensures
        r@ == joystick_base_offset_spec(hand),
        vec3_in(r@, FX_ONE as int),
{
    match hand {
        Hand::Left => Vec3 { x: -20_000, y: 0, z: 0 },
        Hand::Right => Vec3 { x: 20_000, y: 0, z: 0 },
    }
}

pub fn joystick_cap_rest_offset(hand: Hand) -> (r: Vec3)
    ensures
        r@ == joystick_cap_rest_offset_spec(hand),
        vec3_in(r@, FX_ONE as int),
{
    match hand {
        Hand::Left => Vec3 { x: -20_000, y: 0, z: -10_000 },
        Hand::Right => Vec3 { x: 20_000, y: 0, z: -10_000 },
    }
}

/// A fully resolved drawable shape, ready for a rasterizer.
#[derive(Clone, Copy, PartialEq, Eq, Structural, Debug)]
pub enum Primitive {
    Rect { position: Vec3, orientation: Quat, extents: Vec2, color: OverlayColor },
    Circle { position: Vec3, normal: Vec3, radius: i64, color: OverlayColor },
    Cuboid { position: Vec3, orientation: Quat, extents: Vec3, color: OverlayColor },
}

/// Mathematical model of a primitive.
pub enum PrimitiveSpec {
    Rect { position: Vec3Spec, orientation: QuatSpec, extents: Vec2Spec, color: OverlayColor },
    Circle { position: Vec3Spec, normal: Vec3Spec, radius: int, color: OverlayColor },
    Cuboid { position: Vec3Spec, orientation: QuatSpec, extents: Vec3Spec, color: OverlayColor },
}

impl View for Primitive {
    type V = PrimitiveSpec;

    open spec fn view(&self) -> PrimitiveSpec {
        match *self {
            Primitive::Rect { position, orientation, extents, color } => PrimitiveSpec::Rect {
                position: position@,
                orientation: orientation@,
                extents: extents@,
                color,
            },
            Primitive::Circle { position, normal, radius, color } => PrimitiveSpec::Circle {
                position: position@,
                normal: normal@,
                radius: radius as int,
                color,
            },
            Primitive::Cuboid { position, orientation, extents, color } => PrimitiveSpec::Cuboid {
                position: position@,
                orientation: orientation@,
                extents: extents@,
                color,
            },
        }
    }
}

/// The models of a sequence of primitives.
pub open spec fn prims_view(s: Seq<Primitive>) -> Seq<PrimitiveSpec> {
    s.map_values(|p: Primitive| p@)
}

/// Orientation of the grip marker: the tracked orientation with the grip tilt.
pub open spec fn grip_orientation_spec(s: SnapshotSpec) -> QuatSpec {
    qmul(s.pose.orientation, grip_tilt_spec())
}

/// Orientation of the face plane.
pub open spec fn face_orientation_spec(s: SnapshotSpec) -> QuatSpec {
    qmul(s.pose.orientation, face_tilt_spec())
}

/// World position of the face: the tracking point moved along the tilted up
/// axis.
pub open spec fn face_position_spec(s: SnapshotSpec) -> Vec3Spec {
    vadd(
        s.pose.position,
        qrotate(qmul(s.pose.orientation, face_reach_tilt_spec()), face_reach_spec()),
    )
}

/// Facing axis of the face plane and of every circle on it.
pub open spec fn face_normal_spec(s: SnapshotSpec) -> Vec3Spec {
    qrotate(face_orientation_spec(s), axis_z_spec())
}

/// World position of a control sitting at `off` in the face frame.
pub open spec fn control_position_spec(s: SnapshotSpec, off: Vec3Spec) -> Vec3Spec {
    vadd(face_position_spec(s), qrotate(face_orientation_spec(s), off))
}

/// Cap displacement from live stick deflection: X direct, Y inverted, scaled.
pub open spec fn stick_displacement_spec(st: Vec2Spec) -> Vec3Spec {
    vscale(Vec3Spec { x: st.x, y: -st.y, z: 0 }, STICK_SCALE as int)
}

/// World position of the joystick cap: its rest position plus the rotated
/// stick displacement.
pub open spec fn joystick_cap_position_spec(hand: Hand, s: SnapshotSpec) -> Vec3Spec {
    vadd(
        control_position_spec(s, joystick_cap_rest_offset_spec(hand)),
        qrotate(face_orientation_spec(s), stick_displacement_spec(s.thumbstick)),
    )
}

/// Added trigger rotation angle: the trigger value scaled linearly.
pub open spec fn trigger_angle_spec(t: int) -> int {
    fm(t, TRIGGER_COEF as int)
}

/// Orientation of the trigger box: the face orientation tipped about X by
/// the trigger angle.
pub open spec fn trigger_orientation_spec(s: SnapshotSpec) -> QuatSpec {
    qmul(face_orientation_spec(s), rotor_x_spec(trigger_angle_spec(s.trigger)))
}

/// World position of the trigger box, along the tipped forward axis.
pub open spec fn trigger_position_spec(s: SnapshotSpec) -> Vec3Spec {
    vadd(face_position_spec(s), qrotate(trigger_orientation_spec(s), trigger_reach_spec()))
}

/// The full layout of one hand: the seven primitives in draw order.
pub open spec fn layout_spec(hand: Hand, s: SnapshotSpec) -> Seq<PrimitiveSpec> {
    seq![
        PrimitiveSpec::Rect {
            position: s.pose.position,
            orientation: grip_orientation_spec(s),
            extents: grip_extents_spec(),
            color: OverlayColor::Identify,
        },
        PrimitiveSpec::Circle {
            position: face_position_spec(s),
            normal: face_normal_spec(s),
            radius: FACE_RADIUS as int,
            color: OverlayColor::Identify,
        },
        PrimitiveSpec::Circle {
            position: control_position_spec(s, button_secondary_offset_spec(hand)),
            normal: face_normal_spec(s),
            radius: BUTTON_RADIUS as int,
            color: activation_color_spec(s.secondary_button, false),
        },
        PrimitiveSpec::Circle {
            position: control_position_spec(s, button_primary_offset_spec(hand)),
            normal: face_normal_spec(s),
            radius: BUTTON_RADIUS as int,
            color: activation_color_spec(s.primary_button, false),
        },
        PrimitiveSpec::Circle {
            position: control_position_spec(s, joystick_base_offset_spec(hand)),
            normal: face_normal_spec(s),
            radius: JOYSTICK_BASE_RADIUS as int,
            color: activation_color_spec(ButtonState::Released, s.thumbstick_touched),
        },
        PrimitiveSpec::Circle {
            position: joystick_cap_position_spec(hand, s),
            normal: face_normal_spec(s),
            radius: JOYSTICK_CAP_RADIUS as int,
            color: activation_color_spec(ButtonState::Released, s.thumbstick_touched),
        },
        PrimitiveSpec::Cuboid {
            position: trigger_position_spec(s),
            orientation: trigger_orientation_spec(s),
            extents: trigger_extents_spec(),
            color: activation_color_spec(ButtonState::Released, s.trigger_touched),
        },
    ]
}

/// Compute one hand's layout from its snapshot: exactly the seven primitives
/// of `layout_spec`, in draw order.
#[verifier::rlimit(100)]
pub fn layout(hand: Hand, s: &ControllerSnapshot) -> (r: Vec<Primitive>)
    requires
        snapshot_wf(s@),
    ensures
        prims_view(r@) == layout_spec(hand, s@),
        r@.len() == 7,
{
    let cq = s.pose.orientation;
    let grip_q = quat_mul(cq, grip_tilt());
    let face_q = quat_mul(cq, face_tilt());
    proof {
        lemma_qmul_in(cq@, face_tilt_spec(), FX_ONE as int, FX_ONE as int);
    }
    let reach_q = quat_mul(cq, face_reach_tilt());
    proof {
        lemma_qmul_in(cq@, face_reach_tilt_spec(), FX_ONE as int, FX_ONE as int);
    }
    let face_pos = vec3_add(s.pose.position, quat_rotate(reach_q, Vec3 { x: 0, y: 75_000, z: 0 }));
    let normal = quat_rotate(face_q, Vec3 { x: 0, y: 0, z: FX_ONE });

    let sec_color = activation_color(s.secondary_button, false);
    let sec_pos = vec3_add(face_pos, quat_rotate(face_q, button_secondary_offset(hand)));
    let pri_color = activation_color(s.primary_button, false);
    let pri_pos = vec3_add(face_pos, quat_rotate(face_q, button_primary_offset(hand)));

    let stick_color = activation_color(ButtonState::Released, s.thumbstick_touched);
    let base_pos = vec3_add(face_pos, quat_rotate(face_q, joystick_base_offset(hand)));
    let stick_raw = Vec3 { x: s.thumbstick.x, y: -s.thumbstick.y, z: 0 };
    let disp = vec3_scale(stick_raw, STICK_SCALE);
    proof {
        lemma_fm_bound(s.thumbstick.x as int, STICK_SCALE as int, FX_ONE as int, STICK_SCALE as int);
        lemma_fm_bound(-(s.thumbstick.y as int), STICK_SCALE as int, FX_ONE as int, STICK_SCALE as int);
        crate::fixed::lemma_fm_zero(STICK_SCALE as int);
    }
    let cap_pos = vec3_add(
        vec3_add(face_pos, quat_rotate(face_q, joystick_cap_rest_offset(hand))),
        quat_rotate(face_q, disp),
    );

    let trigger_color = activation_color(ButtonState::Released, s.trigger_touched);
    let t_ang = fx_mul(s.trigger, TRIGGER_COEF);
    proof {
        lemma_fm_bound(s.trigger as int, TRIGGER_COEF as int, FX_ONE as int, 750_000);
    }
    let rotor = rotor_x(t_ang);
    let trig_q = quat_mul(face_q, rotor);
    proof {
        lemma_qmul_in(face_q@, rotor@, 4_000_000, 2_000_000);
    }
    let trig_pos = vec3_add(face_pos, quat_rotate(trig_q, Vec3 { x: 0, y: 0, z: 20_000 }));

    let mut out: Vec<Primitive> = Vec::new();
    out.push(Primitive::Rect {
        position: s.pose.position,
        orientation: grip_q,
        extents: Vec2 { x: 50_000, y: 100_000 },
        color: OverlayColor::Identify,
    });
    out.push(Primitive::Circle {
        position: face_pos,
        normal,
        radius: FACE_RADIUS,
        color: OverlayColor::Identify,
    });
    out.push(Primitive::Circle {
        position: sec_pos,
        normal,
        radius: BUTTON_RADIUS,
        color: sec_color,
    });
    out.push(Primitive::Circle {
        position: pri_pos,
        normal,
        radius: BUTTON_RADIUS,
        color: pri_color,
    });
    out.push(Primitive::Circle {
        position: base_pos,
        normal,
        radius: JOYSTICK_BASE_RADIUS,
        color: stick_color,
    });
    out.push(Primitive::Circle {
        position: cap_pos,
        normal,
        radius: JOYSTICK_CAP_RADIUS,
        color: stick_color,
    });
    out.push(Primitive::Cuboid {
        position: trig_pos,
        orientation: trig_q,
        extents: Vec3 { x: 10_000, y: 20_000, z: 30_000 },
        color: trigger_color,
    });
    proof {
        let target = layout_spec(hand, s@);
        assert(prims_view(out@).len() == 7);
        assert(prims_view(out@)[0] == target[0]);
        assert(prims_view(out@)[1] == target[1]);
        assert(prims_view(out@)[2] == target[2]);
        assert(prims_view(out@)[3] == target[3]);
        assert(prims_view(out@)[4] == target[4]);
        assert(prims_view(out@)[5] == target[5]);
        assert(prims_view(out@)[6] == target[6]);
        assert(prims_view(out@) =~= target);
    }
    out
}

/// Determinism: the layout depends on nothing but the hand and the snapshot
/// value, so equal inputs give identical primitive lists.
pub proof fn lemma_layout_deterministic(hand: Hand, a: SnapshotSpec, b: SnapshotSpec)
    requires
        a == b,
    ensures
        layout_spec(hand, a) == layout_spec(hand, b),
{
}

/// Trigger response, linear part: the added angle is exactly the trigger
/// value scaled by the fixed coefficient — zero at no pull, the fixed
/// maximum at full pull.
pub proof fn lemma_trigger_angle_linear(t: int)
    requires
        0 <= t <= FX_ONE as int,
    ensures
        trigger_angle_spec(t) == -((750_000 * t) / (FX_ONE as int)),
        trigger_angle_spec(0) == 0,
        trigger_angle_spec(FX_ONE as int) == TRIGGER_COEF as int,
{
    crate::fixed::lemma_fm_zero(TRIGGER_COEF as int);
    assert((750_000 * 1_000_000) / 1_000_000 == 750_000);
}

/// Trigger response, monotone part: more pull never rotates the wedge back.
pub proof fn lemma_trigger_angle_monotone(t1: int, t2: int)
    requires
        0 <= t1 <= t2,
    ensures
        trigger_angle_spec(t2) <= trigger_angle_spec(t1) <= 0,
{
    lemma_div_is_ordered(750_000 * t1, 750_000 * t2, 1_000_000);
    lemma_div_pos_is_pos(750_000 * t1, 1_000_000);
    lemma_div_pos_is_pos(750_000 * t2, 1_000_000);
}

/// With the trigger at rest its rotor is the identity, so the box keeps the
/// face orientation exactly.
pub proof fn lemma_trigger_zero_orientation(s: SnapshotSpec)
    requires
        s.trigger == 0,
    ensures
        trigger_orientation_spec(s) == face_orientation_spec(s),
{
    crate::fixed::lemma_fm_zero(TRIGGER_COEF as int);
    lemma_rotor_zero();
    lemma_qmul_identity(face_orientation_spec(s));
}

/// Zero deflection: with the stick centered the cap adds no displacement at
/// all — it sits exactly at its rest offset, which is the base offset plus
/// the fixed depth.
pub proof fn lemma_joystick_cap_centered(hand: Hand, s: SnapshotSpec)
    requires
        s.thumbstick.x == 0,
        s.thumbstick.y == 0,
    ensures
        joystick_cap_position_spec(hand, s) == control_position_spec(
            s,
            joystick_cap_rest_offset_spec(hand),
        ),
        joystick_cap_rest_offset_spec(hand) == vadd(
            joystick_base_offset_spec(hand),
            Vec3Spec { x: 0, y: 0, z: -10_000 },
        ),
{
    crate::fixed::lemma_fm_zero(STICK_SCALE as int);
    assert(stick_displacement_spec(s.thumbstick) == Vec3Spec { x: 0, y: 0, z: 0 });
    lemma_qrotate_zero(face_orientation_spec(s));
}

/// The pose reflected across the controller's vertical plane.
pub open spec fn mirror_pose(p: PoseSpec) -> PoseSpec {
    PoseSpec { position: mirror_vec(p.position), orientation: mirror_quat(p.orientation) }
}

/// The snapshot with its pose reflected and every input left as it was.
pub open spec fn mirror_snapshot(s: SnapshotSpec) -> SnapshotSpec {
    SnapshotSpec {
        pose: mirror_pose(s.pose),
        primary_button: s.primary_button,
        secondary_button: s.secondary_button,
        thumbstick: s.thumbstick,
        thumbstick_touched: s.thumbstick_touched,
        trigger: s.trigger,
        trigger_touched: s.trigger_touched,
    }
}

/// A primitive reflected across the vertical plane: positions, orientations
/// and facing axes mirror; sizes and colors stay.
pub open spec fn mirror_primitive(p: PrimitiveSpec) -> PrimitiveSpec {
    match p {
        PrimitiveSpec::Rect { position, orientation, extents, color } => PrimitiveSpec::Rect {
            position: mirror_vec(position),
            orientation: mirror_quat(orientation),
            extents,
            color,
        },
        PrimitiveSpec::Circle { position, normal, radius, color } => PrimitiveSpec::Circle {
            position: mirror_vec(position),
            normal: mirror_vec(normal),
            radius,
            color,
        },
        PrimitiveSpec::Cuboid { position, orientation, extents, color } => PrimitiveSpec::Cuboid {
            position: mirror_vec(position),
            orientation: mirror_quat(orientation),
            extents,
            color,
        },
    }
}

/// A whole layout reflected primitive by primitive.
pub open spec fn mirror_layout(l: Seq<PrimitiveSpec>) -> Seq<PrimitiveSpec> {
    l.map_values(|p: PrimitiveSpec| mirror_primitive(p))
}

/// The frame quantities mirror pointwise: every orientation, position and
/// facing axis of the reflected snapshot's right hand is the reflection of
/// the left hand's.
#[verifier::rlimit(100)]
#[verifier::spinoff_prover]
proof fn lemma_mirror_frame(s: SnapshotSpec)
    requires
        fm(s.thumbstick.x, STICK_SCALE as int) == 0,
    ensures
        grip_orientation_spec(mirror_snapshot(s)) == mirror_quat(grip_orientation_spec(s)),
        face_orientation_spec(mirror_snapshot(s)) == mirror_quat(face_orientation_spec(s)),
        face_position_spec(mirror_snapshot(s)) == mirror_vec(face_position_spec(s)),
        face_normal_spec(mirror_snapshot(s)) == mirror_vec(face_normal_spec(s)),
        control_position_spec(mirror_snapshot(s), button_secondary_offset_spec(Hand::Right))
            == mirror_vec(control_position_spec(s, button_secondary_offset_spec(Hand::Left))),
        control_position_spec(mirror_snapshot(s), button_primary_offset_spec(Hand::Right))
            == mirror_vec(control_position_spec(s, button_primary_offset_spec(Hand::Left))),
        control_position_spec(mirror_snapshot(s), joystick_base_offset_spec(Hand::Right))
            == mirror_vec(control_position_spec(s, joystick_base_offset_spec(Hand::Left))),
        joystick_cap_position_spec(Hand::Right, mirror_snapshot(s)) == mirror_vec(
            joystick_cap_position_spec(Hand::Left, s),
        ),
        trigger_orientation_spec(mirror_snapshot(s)) == mirror_quat(trigger_orientation_spec(s)),
        trigger_position_spec(mirror_snapshot(s)) == mirror_vec(trigger_position_spec(s)),
{
    let m = mirror_snapshot(s);
    let cq = s.pose.orientation;

    assert(mirror_quat(grip_tilt_spec()) == grip_tilt_spec());
    assert(mirror_quat(face_tilt_spec()) == face_tilt_spec());
    assert(mirror_quat(face_reach_tilt_spec()) == face_reach_tilt_spec());
    lemma_qmul_mirror(cq, grip_tilt_spec());
    lemma_qmul_mirror(cq, face_tilt_spec());
    lemma_qmul_mirror(cq, face_reach_tilt_spec());
    assert(face_orientation_spec(m) == mirror_quat(face_orientation_spec(s)));

    // face position
    assert(mirror_vec(face_reach_spec()) == face_reach_spec());
    lemma_qrotate_mirror(qmul(cq, face_reach_tilt_spec()), face_reach_spec());
    assert(face_position_spec(m) == mirror_vec(face_position_spec(s)));

    // face normal
    assert(mirror_vec(axis_z_spec()) == axis_z_spec());
    lemma_qrotate_mirror(face_orientation_spec(s), axis_z_spec());
    assert(face_normal_spec(m) == mirror_vec(face_normal_spec(s)));

    // buttons and joystick base: the right-hand offsets are the mirrored
    // left-hand offsets
    assert(button_secondary_offset_spec(Hand::Right) == mirror_vec(
        button_secondary_offset_spec(Hand::Left),
    ));
    assert(button_primary_offset_spec(Hand::Right) == mirror_vec(
        button_primary_offset_spec(Hand::Left),
    ));
    assert(joystick_base_offset_spec(Hand::Right) == mirror_vec(
        joystick_base_offset_spec(Hand::Left),
    ));
    assert(joystick_cap_rest_offset_spec(Hand::Right) == mirror_vec(
        joystick_cap_rest_offset_spec(Hand::Left),
    ));
    lemma_qrotate_mirror(face_orientation_spec(s), button_secondary_offset_spec(Hand::Left));
    lemma_qrotate_mirror(face_orientation_spec(s), button_primary_offset_spec(Hand::Left));
    lemma_qrotate_mirror(face_orientation_spec(s), joystick_base_offset_spec(Hand::Left));
    lemma_qrotate_mirror(face_orientation_spec(s), joystick_cap_rest_offset_spec(Hand::Left));

    // joystick cap: a laterally centered stick displaces the cap straight
    // up or down, which is its own mirror image
    assert(mirror_vec(stick_displacement_spec(s.thumbstick)) == stick_displacement_spec(
        s.thumbstick,
    ));
    lemma_qrotate_mirror(face_orientation_spec(s), stick_displacement_spec(s.thumbstick));
    assert(joystick_cap_position_spec(Hand::Right, m) == mirror_vec(
        joystick_cap_position_spec(Hand::Left, s),
    ));

    // trigger: its rotor turns about the lateral axis, which the reflection
    // leaves fixed
    let rot = rotor_x_spec(trigger_angle_spec(s.trigger));
    assert(mirror_quat(rot) == rot);
    lemma_qmul_mirror(face_orientation_spec(s), rot);
    assert(trigger_orientation_spec(m) == mirror_quat(trigger_orientation_spec(s)));
    assert(mirror_vec(trigger_reach_spec()) == trigger_reach_spec());
    lemma_qrotate_mirror(trigger_orientation_spec(s), trigger_reach_spec());
    assert(trigger_position_spec(m) == mirror_vec(trigger_position_spec(s)));
}

/// Mirroring: with the pose reflected across the controller's vertical plane
/// and the stick laterally centered (any lateral deflection too small to
/// displace the cap), the right hand's layout is the exact mirror image of
/// the left hand's, primitive by primitive — lateral offsets flip sign,
/// everything else is identical. A lateral stick deflection breaks the
/// symmetry, since both hands push the cap the same way.
#[verifier::rlimit(100)]
#[verifier::spinoff_prover]
pub proof fn lemma_layout_mirror(s: SnapshotSpec)
    requires
        fm(s.thumbstick.x, STICK_SCALE as int) == 0,
    ensures
        layout_spec(Hand::Right, mirror_snapshot(s)) == mirror_layout(
            layout_spec(Hand::Left, s),
        ),
{
    lemma_mirror_frame(s);
    let lhs = layout_spec(Hand::Right, mirror_snapshot(s));
    let rhs = mirror_layout(layout_spec(Hand::Left, s));
    assert(lhs[0] == rhs[0]);
    assert(lhs[1] == rhs[1]);
    assert(lhs[2] == rhs[2]);
    assert(lhs[3] == rhs[3]);
    assert(lhs[4] == rhs[4]);
    assert(lhs[5] == rhs[5]);
    assert(lhs[6] == rhs[6]);
    assert(lhs =~= rhs);
}

} // verus!
