//! Debug overlay for two tracked motion controllers.
//!
//! Per frame, for each hand, the library turns one immutable snapshot of the
//! controller's pose and input state into an ordered list of drawable
//! primitives: a grip rectangle, a face circle, two button circles, two
//! joystick circles and a trigger box. All geometry is carried in fixed-point
//! millionths of a world unit, so every computation is exact integer
//! arithmetic and the layout is a pure function of its inputs.

pub mod fixed;
pub mod algebra;
pub mod controls;
pub mod layout;
pub mod driver;
