//! The bridge that lets sticks appear as one emulated gamepad.
//!
//! The bridge decides; the host performs: it announces the connection
//! changes that `connect_gamepad` returns and publishes the axis readings
//! that `send_axis_events` returns.

use crate::vec2::Vec2;
use vstd::prelude::*;

verus! {

/// The product id under which the emulated gamepad announces itself.
pub const TOUCH_GAMEPAD_ID: u16 = 51492;

/// The name under which the emulated gamepad announces itself.
pub fn gamepad_name() -> (name: &'static str)
    ensures
        name@ == "bevy_touch_stick"@,
{
    "bevy_touch_stick"
}

/// One analog axis of a gamepad.
#[derive(Clone, Copy, Debug, PartialEq, Eq, Hash, Structural)]
pub enum GamepadAxis {
    LeftStickX,
    LeftStickY,
    LeftZ,
    RightStickX,
    RightStickY,
    RightZ,
    Other(u8),
}

/// The two gamepad axes that a stick drives: the first takes the `x` of the
/// stick's value, the second its `y`.
#[derive(Clone, Copy, Debug, PartialEq, Eq, Hash, Structural)]
pub struct TouchStickGamepadMapping(pub GamepadAxis, pub GamepadAxis);

impl TouchStickGamepadMapping {
    /// The mapping to the left stick of a gamepad.
    pub fn left_stick() -> (m: Self)
        ensures
            m == TouchStickGamepadMapping(GamepadAxis::LeftStickX, GamepadAxis::LeftStickY),
    {
        TouchStickGamepadMapping(GamepadAxis::LeftStickX, GamepadAxis::LeftStickY)
    }

    /// The mapping to the right stick of a gamepad.
    pub fn right_stick() -> (m: Self)
        ensures
            m == TouchStickGamepadMapping(GamepadAxis::RightStickX, GamepadAxis::RightStickY),
    {
        TouchStickGamepadMapping(GamepadAxis::RightStickX, GamepadAxis::RightStickY)
    }
}

/// A change in whether the emulated gamepad is connected.
#[derive(Clone, Copy, Debug, PartialEq, Eq, Structural)]
pub enum GamepadConnection {
    Connected,
    Disconnected,
}

/// The event that takes the gamepad from `was` to `now`, if they differ.
pub open spec fn connection_change(was: bool, now: bool) -> Option<GamepadConnection> {
    if was == now {
        None
    } else if now {
        Some(GamepadConnection::Connected)
    } else {
        Some(GamepadConnection::Disconnected)
    }
}

/// Remembers whether the emulated gamepad is connected, so that each change
/// is announced once.
#[derive(Clone, Copy, Debug)]
pub struct GamepadBridge {
    was_connected: bool,
}

impl View for GamepadBridge {
    type V = bool;

    closed spec fn view(&self) -> bool {
        self.was_connected
    }
}

impl Default for GamepadBridge {
    /// A bridge whose gamepad is not connected.
    fn default() -> (bridge: Self)
        ensures
            !bridge@,
    {
        GamepadBridge { was_connected: false }
    }
}

impl GamepadBridge {
    /// A bridge whose gamepad is not connected.
    pub fn new() -> (bridge: Self)
        ensures
            !bridge@,
    {
        GamepadBridge { was_connected: false }
    }

    /// Whether the gamepad is connected.
    pub fn is_connected(&self) -> (c: bool)
        ensures
            c == self@,
    {
        self.was_connected
    }

    /// Takes the number of sticks that carry a mapping in this frame. The
    /// gamepad is connected exactly while there is at least one; the result
    /// is the change to announce, or `None` if nothing changed.
    pub fn connect_gamepad(&mut self, mapped_sticks: usize) -> (event: Option<GamepadConnection>)
        ensures
            final(self)@ == (mapped_sticks > 0),
            event == connection_change(old(self)@, mapped_sticks > 0),
    {
        let connected = mapped_sticks > 0;
        if self.was_connected != connected {
            self.was_connected = connected;
            if connected {
                Some(GamepadConnection::Connected)
            } else {
                Some(GamepadConnection::Disconnected)
            }
        } else {
            None
        }
    }
}

/// The value of one stick together with the axes that it drives.
#[derive(Clone, Copy, Debug, PartialEq, Eq, Structural)]
pub struct MappedStick {
    /// The value of the stick, in millionths.
    pub value: Vec2,
    pub mapping: TouchStickGamepadMapping,
}

/// A reading of one gamepad axis, in millionths.
#[derive(Clone, Copy, Debug, PartialEq, Eq, Structural)]
pub struct AxisEvent {
    pub axis: GamepadAxis,
    pub value: i32,
}

/// The reading of the first axis of a mapped stick.
pub open spec fn x_event(stick: MappedStick) -> AxisEvent {
    AxisEvent { axis: stick.mapping.0, value: stick.value.x }
}

/// The reading of the second axis of a mapped stick.
pub open spec fn y_event(stick: MappedStick) -> AxisEvent {
    AxisEvent { axis: stick.mapping.1, value: stick.value.y }
}

/// The readings of all mapped sticks: for each stick in turn its first axis,
/// then its second.
pub open spec fn axis_events(sticks: Seq<MappedStick>) -> Seq<AxisEvent> {
    Seq::new(
        2 * sticks.len(),
        |k: int|
            if k % 2 == 0 {
                x_event(sticks[k / 2])
            } else {
                y_event(sticks[k / 2])
            },
    )
}

/// The axis readings to publish in this frame: two for each mapped stick
/// while the emulated gamepad exists, none while it does not.
pub fn send_axis_events(gamepad_present: bool, sticks: &Vec<MappedStick>) -> (events: Vec<
    AxisEvent,
>)
    ensures
        events@ == if gamepad_present {
            axis_events(sticks@)
        } else {
            Seq::<AxisEvent>::empty()
        },
{
    let mut events: Vec<AxisEvent> = Vec::new();
    if !gamepad_present {
        return events;
    }
    let mut i: usize = 0;
    while i < sticks.len()
        invariant
            i <= sticks.len(),
            events@.len() == 2 * i,
            forall|k: int| 0 <= k < 2 * i ==> events@[k] == axis_events(sticks@)[k],
        decreases sticks.len() - i,
    {
        let stick = sticks[i];
        events.push(AxisEvent { axis: stick.mapping.0, value: stick.value.x });
        events.push(AxisEvent { axis: stick.mapping.1, value: stick.value.y });
        i = i + 1;
    }
    events
}

/// A frame that leaves the number of mapped sticks on the same side of zero
/// as the frame before announces nothing.
pub proof fn lemma_unchanged_frame_is_silent(first: usize, second: usize)
    requires
        (first > 0) == (second > 0),
    ensures
        connection_change(first > 0, second > 0) is None,
{
}

/// The first mapped stick connects the gamepad, the removal of the last one
/// disconnects it, and nothing else announces anything: of two frames in a
/// row, the second announces something exactly if the first did not leave
/// the gamepad as the second needs it.
pub proof fn lemma_connection_follows_sticks(was: bool, mapped_sticks: usize)
    ensures
        !was && mapped_sticks > 0 ==> connection_change(was, mapped_sticks > 0) == Some(
            GamepadConnection::Connected,
        ),
        was && mapped_sticks == 0 ==> connection_change(was, mapped_sticks > 0) == Some(
            GamepadConnection::Disconnected,
        ),
        was == (mapped_sticks > 0) <==> connection_change(was, mapped_sticks > 0) is None,
{
}

} // verus!
