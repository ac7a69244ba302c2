//! A virtual touch stick: the state machine that turns pointer drags into a
//! direction, and the geometry that places the knob and the outline.
//!
//! Everything is computed on whole numbers. Positions, radii and offsets are
//! counted in screen units, whatever the host takes a unit to be; a value
//! holds each axis in millionths, so that [`ONE`] stands for full deflection.

pub mod feedback;
pub mod fixed;
pub mod gamepad;
pub mod joystick;
pub mod laws;
pub mod registry;
pub mod stick;
pub mod ui;
pub mod value;
pub mod vec2;

pub use feedback::{Feedback, OUTLINE_DAMPING};
pub use fixed::{HALF, ONE};
pub use gamepad::{
    gamepad_name, send_axis_events, AxisEvent, GamepadAxis, GamepadBridge, GamepadConnection,
    MappedStick, TouchStickGamepadMapping, TOUCH_GAMEPAD_ID,
};
pub use joystick::{
    extract_joystick_node, ExtractedUiNode, MissingImages, StickElement, TouchStickNode,
};
pub use registry::{PointerEvent, StickRegistry};
pub use stick::{ConfigError, DragSession, TouchStick, TouchStickType};
pub use ui::{
    patch_stick_node, ContainerMetrics, DisplayMode, StickPatch, StyleOffset, StylePatch,
};
pub use value::compute_value;
pub use vec2::Vec2;
