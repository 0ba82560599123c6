//! Input-side data model: hands, button states, the per-frame controller
//! snapshot, and the rule that picks a display color from a control's
//! activation state.

use vstd::prelude::*;
use crate::algebra::{Vec3, Vec2, Quat, Vec3Spec, Vec2Spec, QuatSpec, vec3_in, quat_in, COORD_LIMIT};
use crate::fixed::FX_ONE;

verus! {

/// Which controller a snapshot belongs to; also the mirroring parameter of
/// the layout math.
#[derive(Clone, Copy, PartialEq, Eq, Structural, Debug)]
pub enum Hand {
    Left,
    Right,
}

/// Tri-state of a binary control.
#[derive(Clone, Copy, PartialEq, Eq, Structural, Debug)]
pub enum ButtonState {
    Released,
    Touched,
    Pressed,
}

/// The fixed palette of the overlay: an identification color for the grip
/// and face markers, and one color per activation state.
#[derive(Clone, Copy, PartialEq, Eq, Structural, Debug)]
pub enum OverlayColor {
    Identify,
    Idle,
    Touched,
    Pressed,
}

/// A tracked pose: world position and orientation.
#[derive(Clone, Copy, PartialEq, Eq, Structural, Debug)]
pub struct Pose {
    pub position: Vec3,
    pub orientation: Quat,
}

/// Mathematical model of a pose.
pub struct PoseSpec {
    pub position: Vec3Spec,
    pub orientation: QuatSpec,
}

impl View for Pose {
    type V = PoseSpec;

    open spec fn view(&self) -> PoseSpec {
        PoseSpec { position: self.position@, orientation: self.orientation@ }
    }
}

/// One hand's complete input state for one frame. Constructed fresh each
/// frame and read-only afterwards.
#[derive(Clone, Copy, PartialEq, Eq, Structural, Debug)]
pub struct ControllerSnapshot {
    pub pose: Pose,
    pub primary_button: ButtonState,
    pub secondary_button: ButtonState,
    pub thumbstick: Vec2,
    pub thumbstick_touched: bool,
    pub trigger: i64,
    pub trigger_touched: bool,
}

/// Mathematical model of a snapshot.
pub struct SnapshotSpec {
    pub pose: PoseSpec,
    pub primary_button: ButtonState,
    pub secondary_button: ButtonState,
    pub thumbstick: Vec2Spec,
    pub thumbstick_touched: bool,
    pub trigger: int,
    pub trigger_touched: bool,
}

impl View for ControllerSnapshot {
    type V = SnapshotSpec;

    open spec fn view(&self) -> SnapshotSpec {
        SnapshotSpec {
            pose: self.pose@,
            primary_button: self.primary_button,
            secondary_button: self.secondary_button,
            thumbstick: self.thumbstick@,
            thumbstick_touched: self.thumbstick_touched,
            trigger: self.trigger as int,
            trigger_touched: self.trigger_touched,
        }
    }
}

/// A well-formed snapshot: the orientation is a unit quaternion (so each
/// component is at most one unit), the position lies within the coordinate
/// limit, the stick axes lie in [-1, 1] and the trigger in [0, 1].
pub open spec fn snapshot_wf(s: SnapshotSpec) -> bool {
    &&& vec3_in(s.pose.position, COORD_LIMIT as int)
    &&& quat_in(s.pose.orientation, FX_ONE as int)
    &&& -FX_ONE <= s.thumbstick.x <= FX_ONE
    &&& -FX_ONE <= s.thumbstick.y <= FX_ONE
    &&& 0 <= s.trigger <= FX_ONE
}

/// The color a control shows for a given state and touch flag: pressed wins
/// over touched, touched wins over idle.
pub open spec fn activation_color_spec(state: ButtonState, touched: bool) -> OverlayColor {
    if state is Pressed {
        OverlayColor::Pressed
    } else if touched || state is Touched {
        OverlayColor::Touched
    } else {
        OverlayColor::Idle
    }
}

/// Resolve the display color of a control from its state and touch flag.
pub fn activation_color(state: ButtonState, touched: bool) -> (c: OverlayColor)
    ensures
        c == activation_color_spec(state, touched),
{
    match state {
        ButtonState::Pressed => OverlayColor::Pressed,
        ButtonState::Touched => OverlayColor::Touched,
        ButtonState::Released => {
            if touched {
                OverlayColor::Touched
            } else {
                OverlayColor::Idle
            }
        },
    }
}

/// The activation rule in full: released and untouched is idle; a touched
/// control shows the touch color unless it is pressed; a pressed control
/// always shows the pressed color, whatever the touch flag says.
pub proof fn lemma_activation_color_rules()
    ensures
        activation_color_spec(ButtonState::Released, false) == OverlayColor::Idle,
        forall|s: ButtonState|
            activation_color_spec(s, true) == (if s is Pressed {
                OverlayColor::Pressed
            } else {
                OverlayColor::Touched
            }),
        forall|t: bool| activation_color_spec(ButtonState::Pressed, t) == OverlayColor::Pressed,
{
}

} // verus!
