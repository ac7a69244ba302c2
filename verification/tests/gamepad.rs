use touch_stick::{
    gamepad_name, send_axis_events, AxisEvent, GamepadAxis, GamepadBridge, GamepadConnection,
    MappedStick, TouchStick, TouchStickGamepadMapping, TouchStickType, Vec2, TOUCH_GAMEPAD_ID,
};

#[test]
fn emulated_gamepad_has_a_fixed_identity() {
    assert_eq!(TOUCH_GAMEPAD_ID, 51492);
    assert_eq!(gamepad_name(), "bevy_touch_stick");
}

#[test]
fn default_mappings_pair_the_axes_of_one_stick() {
    assert_eq!(
        TouchStickGamepadMapping::left_stick(),
        TouchStickGamepadMapping(GamepadAxis::LeftStickX, GamepadAxis::LeftStickY)
    );
    assert_eq!(
        TouchStickGamepadMapping::right_stick(),
        TouchStickGamepadMapping(GamepadAxis::RightStickX, GamepadAxis::RightStickY)
    );
}

#[test]
fn bridge_announces_each_change_once() {
    let mut bridge = GamepadBridge::new();
    let mut events = Vec::new();
    for mapped in [0, 0, 1, 2, 2, 1, 0, 0, 5, 0] {
        events.push(bridge.connect_gamepad(mapped));
    }
    assert_eq!(
        events,
        vec![
            None,
            None,
            Some(GamepadConnection::Connected),
            None,
            None,
            None,
            Some(GamepadConnection::Disconnected),
            None,
            Some(GamepadConnection::Connected),
            Some(GamepadConnection::Disconnected),
        ]
    );
    assert!(!bridge.is_connected());
}

#[test]
fn axis_events_pair_each_value_with_its_axes() {
    let mut left = TouchStick::new("left", TouchStickType::Fixed, 100, 10).unwrap();
    assert!(left.begin(1, Vec2::new(0, 0), true));
    assert!(left.update(1, Vec2::new(30, -40)));
    left.recompute_value();
    let sticks = vec![
        MappedStick { value: left.value(), mapping: TouchStickGamepadMapping::left_stick() },
        MappedStick {
            value: Vec2::new(-1_000_000, 0),
            mapping: TouchStickGamepadMapping(GamepadAxis::RightZ, GamepadAxis::Other(7)),
        },
    ];
    assert_eq!(
        send_axis_events(true, &sticks),
        vec![
            AxisEvent { axis: GamepadAxis::LeftStickX, value: 300_000 },
            AxisEvent { axis: GamepadAxis::LeftStickY, value: -400_000 },
            AxisEvent { axis: GamepadAxis::RightZ, value: -1_000_000 },
            AxisEvent { axis: GamepadAxis::Other(7), value: 0 },
        ]
    );
}

#[test]
fn axis_events_wait_for_the_gamepad() {
    let sticks = vec![MappedStick {
        value: Vec2::new(5, 6),
        mapping: TouchStickGamepadMapping::right_stick(),
    }];
    assert!(send_axis_events(false, &sticks).is_empty());
    assert!(send_axis_events(true, &Vec::new()).is_empty());
    assert_eq!(send_axis_events(true, &sticks).len(), 2);
}

#[test]
fn default_bridge_is_not_connected() {
    let mut bridge = GamepadBridge::default();
    assert!(!bridge.is_connected());
    assert_eq!(bridge.connect_gamepad(1), Some(GamepadConnection::Connected));
}
