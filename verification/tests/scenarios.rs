use touch_stick::{
    extract_joystick_node, patch_stick_node, ContainerMetrics, DisplayMode, ExtractedUiNode,
    GamepadBridge, GamepadConnection, StickElement, StyleOffset, TouchStick, TouchStickNode,
    TouchStickType, Vec2, ONE,
};

fn container() -> ContainerMetrics {
    ContainerMetrics { visible: true, size: Vec2::new(200, 200), position: Vec2::new(300, 400) }
}

fn node() -> TouchStickNode {
    TouchStickNode {
        border_image_loaded: true,
        knob_image_loaded: true,
        knob_size: Vec2::new(60, 60),
        transparent: false,
    }
}

fn extract(stick: &TouchStick<&'static str>) -> Vec<ExtractedUiNode> {
    let mut extracted = Vec::new();
    extract_joystick_node(&mut extracted, 3, stick, &container(), &node());
    extracted
}

#[test]
fn fixed_stick_reports_scaled_clamped_and_suppressed_values() {
    let mut stick = TouchStick::new("left", TouchStickType::Fixed, 100, 10).unwrap();
    assert!(stick.begin(1, Vec2::new(0, 0), true));

    assert!(stick.update(1, Vec2::new(80, 0)));
    stick.recompute_value();
    assert_eq!(stick.value(), Vec2::new(800_000, 0));
    let x = stick.value().x as f32 / ONE as f32;
    assert!((x - 0.8).abs() < 1e-6);

    assert!(stick.update(1, Vec2::new(150, 0)));
    stick.recompute_value();
    assert_eq!(stick.value(), Vec2::new(ONE, 0));
    assert_eq!(stick.value().x as f32 / ONE as f32, 1.0);

    assert!(stick.update(1, Vec2::new(5, 0)));
    stick.recompute_value();
    assert_eq!(stick.value(), Vec2::new(0, 0));
}

#[test]
fn floating_stick_appears_at_the_drag_start_and_hides_on_release() {
    let mut stick = TouchStick::new("left", TouchStickType::Floating, 100, 10).unwrap();

    let fb = stick.feedback();
    assert!(!fb.visible);
    let patch = patch_stick_node(&stick, &container());
    assert_eq!(patch.knob.display, DisplayMode::Hidden);
    assert_eq!(patch.outline.display, DisplayMode::Hidden);
    assert!(extract(&stick).is_empty());

    assert!(stick.begin(7, Vec2::new(50, 50), true));
    assert!(stick.update(7, Vec2::new(50, 80)));
    stick.recompute_value();
    assert_eq!(stick.value(), Vec2::new(0, 300_000));

    let fb = stick.feedback();
    assert!(fb.visible);
    assert_eq!(fb.anchor, Some(Vec2::new(50, 50)));
    assert_eq!(fb.outline_offset, Vec2::new(0, 0));
    assert_eq!(fb.knob_offset, Vec2::new(0, -30));
    let patch = patch_stick_node(&stick, &container());
    assert_eq!(patch.knob.display, DisplayMode::Flex);
    assert_eq!(patch.outline.display, DisplayMode::Flex);
    assert_eq!(patch.knob.offset, Some(StyleOffset { left: 0, bottom: 30 }));
    assert_eq!(patch.outline.offset, None);
    let drawn = extract(&stick);
    assert_eq!(drawn.len(), 2);
    assert_eq!(
        drawn[0],
        ExtractedUiNode {
            stack_index: 3,
            element: StickElement::Outline,
            x: 50,
            y: 50,
            size: Vec2::new(200, 200),
        }
    );
    assert_eq!(
        drawn[1],
        ExtractedUiNode {
            stack_index: 3,
            element: StickElement::Knob,
            x: 50,
            y: 20,
            size: Vec2::new(60, 60),
        }
    );

    assert!(stick.end(7));
    stick.recompute_value();
    assert_eq!(stick.value(), Vec2::new(0, 0));
    assert_eq!(stick.session(), None);
    assert!(!stick.feedback().visible);
    let patch = patch_stick_node(&stick, &container());
    assert_eq!(patch.knob.display, DisplayMode::Hidden);
    assert_eq!(patch.outline.display, DisplayMode::Hidden);
    assert!(extract(&stick).is_empty());
}

#[test]
fn dynamic_stick_stays_where_it_was_last_touched() {
    let mut stick = TouchStick::new("right", TouchStickType::Dynamic, 100, 10).unwrap();
    assert!(stick.begin(1, Vec2::new(0, 0), true));
    assert!(stick.update(1, Vec2::new(20, 0)));
    stick.recompute_value();
    assert_eq!(stick.value(), Vec2::new(200_000, 0));
    let fb = stick.feedback();
    assert_eq!(fb.anchor, Some(Vec2::new(0, 0)));
    assert_eq!(fb.knob_offset, Vec2::new(20, 0));
    assert_eq!(fb.outline_offset, Vec2::new(5, 0));

    assert!(stick.end(1));
    stick.recompute_value();
    assert_eq!(stick.value(), Vec2::new(0, 0));
    let fb = stick.feedback();
    assert!(fb.visible);
    assert_eq!(fb.anchor, Some(Vec2::new(0, 0)));
    assert_eq!(fb.knob_offset, Vec2::new(0, 0));
    assert_eq!(fb.outline_offset, Vec2::new(0, 0));
    let patch = patch_stick_node(&stick, &container());
    assert_eq!(patch.knob.display, DisplayMode::Flex);
    assert_eq!(patch.outline.display, DisplayMode::Flex);
    let drawn = extract(&stick);
    assert_eq!(drawn.len(), 2);
    assert_eq!((drawn[0].x, drawn[0].y), (0, 0));
    assert_eq!((drawn[1].x, drawn[1].y), (0, 0));

    assert!(stick.begin(2, Vec2::new(640, 360), true));
    let fb = stick.feedback();
    assert_eq!(fb.anchor, Some(Vec2::new(640, 360)));
    assert_eq!(stick.session().unwrap().base_position, Vec2::new(640, 360));
    assert_eq!(stick.last_base(), Some(Vec2::new(640, 360)));
    let drawn = extract(&stick);
    assert_eq!((drawn[0].x, drawn[0].y), (640, 360));
}

#[test]
fn dynamic_stick_is_shown_at_its_layout_place_before_the_first_drag() {
    let stick = TouchStick::new("right", TouchStickType::Dynamic, 100, 10).unwrap();
    let fb = stick.feedback();
    assert!(fb.visible);
    assert_eq!(fb.anchor, None);
    let drawn = extract(&stick);
    assert_eq!(drawn.len(), 2);
    assert_eq!((drawn[0].x, drawn[0].y), (300, 400));
    assert_eq!((drawn[1].x, drawn[1].y), (300, 400));
}

#[test]
fn gamepad_connects_with_the_first_stick_and_disconnects_with_the_last() {
    let mut bridge = GamepadBridge::new();
    assert!(!bridge.is_connected());
    assert_eq!(bridge.connect_gamepad(0), None);

    assert_eq!(bridge.connect_gamepad(1), Some(GamepadConnection::Connected));
    assert!(bridge.is_connected());
    assert_eq!(bridge.connect_gamepad(1), None);
    assert_eq!(bridge.connect_gamepad(2), None);
    assert_eq!(bridge.connect_gamepad(1), None);

    assert_eq!(bridge.connect_gamepad(0), Some(GamepadConnection::Disconnected));
    assert!(!bridge.is_connected());
    assert_eq!(bridge.connect_gamepad(0), None);
    assert_eq!(bridge.connect_gamepad(0), None);

    assert_eq!(bridge.connect_gamepad(3), Some(GamepadConnection::Connected));
    assert_eq!(bridge.connect_gamepad(3), None);
}
