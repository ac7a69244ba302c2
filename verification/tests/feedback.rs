use touch_stick::{
    extract_joystick_node, patch_stick_node, ContainerMetrics, DisplayMode, ExtractedUiNode,
    Feedback, MissingImages, StickElement, StickPatch, StyleOffset, StylePatch, TouchStick,
    TouchStickNode, TouchStickType, Vec2,
};

const ALL_TYPES: [TouchStickType; 3] =
    [TouchStickType::Fixed, TouchStickType::Floating, TouchStickType::Dynamic];

fn dragged(stick_type: TouchStickType, from: Vec2, to: Vec2) -> TouchStick<u8> {
    let mut stick = TouchStick::new(0u8, stick_type, 100, 10).unwrap();
    assert!(stick.begin(1, from, true));
    assert!(stick.update(1, to));
    stick.recompute_value();
    stick
}

fn container() -> ContainerMetrics {
    ContainerMetrics { visible: true, size: Vec2::new(200, 180), position: Vec2::new(300, 400) }
}

fn node() -> TouchStickNode {
    TouchStickNode {
        border_image_loaded: true,
        knob_image_loaded: true,
        knob_size: Vec2::new(60, 50),
        transparent: false,
    }
}

fn extract(
    stick: &TouchStick<u8>,
    container: &ContainerMetrics,
    node: &TouchStickNode,
) -> Vec<ExtractedUiNode> {
    let mut extracted = Vec::new();
    extract_joystick_node(&mut extracted, 5, stick, container, node);
    extracted
}

#[test]
fn fixed_stick_keeps_its_outline_and_moves_the_knob_by_the_shown_value() {
    let stick = dragged(TouchStickType::Fixed, Vec2::new(10, 10), Vec2::new(40, 10));
    assert_eq!(stick.value(), Vec2::new(300_000, 0));
    assert_eq!(
        stick.feedback(),
        Feedback {
            visible: true,
            anchor: None,
            knob_offset: Vec2::new(30, 0),
            outline_offset: Vec2::new(0, 0),
        }
    );
}

#[test]
fn fixed_stick_shows_no_more_than_half_the_radius() {
    // Full deflection along one axis: the axis is clamped to one half.
    let stick = dragged(TouchStickType::Fixed, Vec2::new(0, 0), Vec2::new(150, 0));
    assert_eq!(stick.value(), Vec2::new(1_000_000, 0));
    assert_eq!(stick.feedback().knob_offset, Vec2::new(50, 0));

    let stick = dragged(TouchStickType::Fixed, Vec2::new(0, 0), Vec2::new(0, -1000));
    assert_eq!(stick.value(), Vec2::new(0, -1_000_000));
    assert_eq!(stick.feedback().knob_offset, Vec2::new(0, 50));

    // Along the diagonal both axes are clamped to one half, and the length
    // of the result is clamped to one half after that.
    let stick = dragged(TouchStickType::Fixed, Vec2::new(0, 0), Vec2::new(80, 60));
    assert_eq!(stick.value(), Vec2::new(800_000, 600_000));
    assert_eq!(stick.feedback().knob_offset, Vec2::new(35, -35));

    let stick = dragged(TouchStickType::Fixed, Vec2::new(0, 0), Vec2::new(50, 50));
    assert_eq!(stick.value(), Vec2::new(500_000, 500_000));
    assert_eq!(stick.feedback().knob_offset, Vec2::new(35, -35));

    let stick = dragged(TouchStickType::Fixed, Vec2::new(0, 0), Vec2::new(123, -456));
    assert_eq!(stick.feedback().knob_offset, Vec2::new(23, 44));
}

#[test]
fn fixed_stick_at_rest_shows_the_knob_in_the_centre() {
    let mut stick = dragged(TouchStickType::Fixed, Vec2::new(0, 0), Vec2::new(80, 60));
    assert!(stick.end(1));
    assert_eq!(
        stick.feedback(),
        Feedback {
            visible: true,
            anchor: None,
            knob_offset: Vec2::new(0, 0),
            outline_offset: Vec2::new(0, 0),
        }
    );
}

#[test]
fn floating_stick_is_hidden_while_its_value_is_zero() {
    let hidden = Feedback {
        visible: false,
        anchor: None,
        knob_offset: Vec2::new(0, 0),
        outline_offset: Vec2::new(0, 0),
    };
    let resting = TouchStick::new(0u8, TouchStickType::Floating, 100, 10).unwrap();
    assert_eq!(resting.feedback(), hidden);

    // A drag inside the dead zone gives a value of zero.
    let stick = dragged(TouchStickType::Floating, Vec2::new(50, 50), Vec2::new(55, 50));
    assert_eq!(stick.value(), Vec2::new(0, 0));
    assert_eq!(stick.feedback(), hidden);
}

#[test]
fn floating_stick_is_placed_around_the_start_of_its_drag() {
    let stick = dragged(TouchStickType::Floating, Vec2::new(50, 50), Vec2::new(130, -10));
    assert_eq!(stick.value(), Vec2::new(800_000, -600_000));
    assert_eq!(
        stick.feedback(),
        Feedback {
            visible: true,
            anchor: Some(Vec2::new(50, 50)),
            knob_offset: Vec2::new(80, 60),
            outline_offset: Vec2::new(0, 0),
        }
    );
}

#[test]
fn dynamic_stick_drags_its_outline_along_by_a_quarter() {
    let stick = dragged(TouchStickType::Dynamic, Vec2::new(50, 50), Vec2::new(130, -10));
    assert_eq!(
        stick.feedback(),
        Feedback {
            visible: true,
            anchor: Some(Vec2::new(50, 50)),
            knob_offset: Vec2::new(80, 60),
            outline_offset: Vec2::new(20, 15),
        }
    );
    let stick = dragged(TouchStickType::Dynamic, Vec2::new(0, 0), Vec2::new(0, 30));
    assert_eq!(stick.feedback().knob_offset, Vec2::new(0, -30));
    assert_eq!(stick.feedback().outline_offset, Vec2::new(0, -7));
}

#[test]
fn offsets_stay_within_the_radius() {
    let targets = [
        Vec2::new(100, 0),
        Vec2::new(-100, 100),
        Vec2::new(1, 1000),
        Vec2::new(i32::MAX, i32::MIN),
        Vec2::new(-71, -71),
    ];
    for stick_type in ALL_TYPES {
        for to in targets {
            let fb = dragged(stick_type, Vec2::new(0, 0), to).feedback();
            for offset in [fb.knob_offset, fb.outline_offset] {
                let n = (offset.x as i64).pow(2) + (offset.y as i64).pow(2);
                assert!(n <= 100 * 100);
                if stick_type == TouchStickType::Fixed {
                    assert!(4 * n <= 100 * 100);
                }
            }
        }
    }
}

#[test]
fn offsets_of_the_largest_stick_fit() {
    let mut stick = TouchStick::new(0u8, TouchStickType::Dynamic, i32::MAX, 0).unwrap();
    assert!(stick.begin(1, Vec2::new(i32::MAX, i32::MIN), true));
    assert!(stick.update(1, Vec2::new(i32::MIN, i32::MAX)));
    stick.recompute_value();
    let fb = stick.feedback();
    assert_eq!(fb.knob_offset, Vec2::new(-1_518_498_571, -1_518_498_571));
    assert_eq!(fb.outline_offset, Vec2::new(-379_624_642, -379_624_642));
    let drawn = {
        let mut extracted = Vec::new();
        extract_joystick_node(&mut extracted, 0, &stick, &container(), &node());
        extracted
    };
    assert_eq!(drawn[1].x, i32::MAX as i64 - 1_518_498_571);
    assert_eq!(drawn[1].y, i32::MIN as i64 - 1_518_498_571);
}

#[test]
fn style_patch_places_the_knob_from_the_left_and_from_the_bottom() {
    let stick = dragged(TouchStickType::Dynamic, Vec2::new(50, 50), Vec2::new(130, -10));
    assert_eq!(
        patch_stick_node(&stick, &container()),
        StickPatch {
            knob: StylePatch {
                display: DisplayMode::Flex,
                offset: Some(StyleOffset { left: 80, bottom: -60 }),
            },
            outline: StylePatch {
                display: DisplayMode::Flex,
                offset: Some(StyleOffset { left: 20, bottom: -15 }),
            },
        }
    );
    let stick = dragged(TouchStickType::Fixed, Vec2::new(50, 50), Vec2::new(80, 90));
    assert_eq!(stick.value(), Vec2::new(300_000, 400_000));
    assert_eq!(
        patch_stick_node(&stick, &container()),
        StickPatch {
            knob: StylePatch {
                display: DisplayMode::Flex,
                offset: Some(StyleOffset { left: 30, bottom: 40 }),
            },
            outline: StylePatch { display: DisplayMode::Flex, offset: None },
        }
    );
}

#[test]
fn style_patch_leaves_the_offsets_alone_in_a_container_that_cannot_be_drawn() {
    let stick = dragged(TouchStickType::Dynamic, Vec2::new(50, 50), Vec2::new(130, -10));
    let shown_unplaced = StickPatch {
        knob: StylePatch { display: DisplayMode::Flex, offset: None },
        outline: StylePatch { display: DisplayMode::Flex, offset: None },
    };
    let invisible = ContainerMetrics { visible: false, ..container() };
    let flat = ContainerMetrics { size: Vec2::new(200, 0), ..container() };
    let thin = ContainerMetrics { size: Vec2::new(0, 180), ..container() };
    assert_eq!(patch_stick_node(&stick, &invisible), shown_unplaced);
    assert_eq!(patch_stick_node(&stick, &flat), shown_unplaced);
    assert_eq!(patch_stick_node(&stick, &thin), shown_unplaced);
    assert!(!invisible.is_drawable());
    assert!(!flat.is_drawable());
    assert!(!thin.is_drawable());
    assert!(container().is_drawable());
}

#[test]
fn style_patch_hides_a_floating_stick_at_rest() {
    let stick = TouchStick::new(0u8, TouchStickType::Floating, 100, 10).unwrap();
    assert_eq!(
        patch_stick_node(&stick, &container()),
        StickPatch {
            knob: StylePatch { display: DisplayMode::Hidden, offset: None },
            outline: StylePatch { display: DisplayMode::Hidden, offset: None },
        }
    );
}

#[test]
fn extraction_draws_the_outline_below_the_knob() {
    let stick = dragged(TouchStickType::Dynamic, Vec2::new(50, 50), Vec2::new(130, -10));
    assert_eq!(
        extract(&stick, &container(), &node()),
        vec![
            ExtractedUiNode {
                stack_index: 5,
                element: StickElement::Outline,
                x: 70,
                y: 65,
                size: Vec2::new(200, 180),
            },
            ExtractedUiNode {
                stack_index: 5,
                element: StickElement::Knob,
                x: 130,
                y: 110,
                size: Vec2::new(60, 50),
            },
        ]
    );
}

#[test]
fn extraction_places_a_fixed_stick_where_layout_put_it() {
    let stick = dragged(TouchStickType::Fixed, Vec2::new(50, 50), Vec2::new(80, 90));
    let drawn = extract(&stick, &container(), &node());
    assert_eq!((drawn[0].x, drawn[0].y), (300, 400));
    assert_eq!((drawn[1].x, drawn[1].y), (330, 360));
}

#[test]
fn extraction_appends_to_what_was_extracted_before() {
    let stick = dragged(TouchStickType::Fixed, Vec2::new(50, 50), Vec2::new(80, 90));
    let mut extracted = Vec::new();
    extract_joystick_node(&mut extracted, 1, &stick, &container(), &node());
    extract_joystick_node(&mut extracted, 2, &stick, &container(), &node());
    assert_eq!(extracted.len(), 4);
    assert_eq!(
        extracted.iter().map(|e| (e.stack_index, e.element)).collect::<Vec<_>>(),
        vec![
            (1, StickElement::Outline),
            (1, StickElement::Knob),
            (2, StickElement::Outline),
            (2, StickElement::Knob),
        ]
    );
}

#[test]
fn extraction_skips_what_cannot_be_seen() {
    let stick = dragged(TouchStickType::Dynamic, Vec2::new(50, 50), Vec2::new(130, -10));
    let invisible = ContainerMetrics { visible: false, ..container() };
    let flat = ContainerMetrics { size: Vec2::new(200, 0), ..container() };
    let thin = ContainerMetrics { size: Vec2::new(0, 180), ..container() };
    let transparent = TouchStickNode { transparent: true, ..node() };
    assert!(extract(&stick, &invisible, &node()).is_empty());
    assert!(extract(&stick, &flat, &node()).is_empty());
    assert!(extract(&stick, &thin, &node()).is_empty());
    assert!(extract(&stick, &container(), &transparent).is_empty());

    let resting = TouchStick::new(0u8, TouchStickType::Floating, 100, 10).unwrap();
    assert!(extract(&resting, &container(), &node()).is_empty());
}

#[test]
fn missing_image_leaves_out_its_element_only() {
    let mut stick = dragged(TouchStickType::Dynamic, Vec2::new(50, 50), Vec2::new(130, -10));
    let no_border = TouchStickNode { border_image_loaded: false, ..node() };
    let no_knob = TouchStickNode { knob_image_loaded: false, ..node() };
    let nothing =
        TouchStickNode { border_image_loaded: false, knob_image_loaded: false, ..node() };

    let drawn = extract(&stick, &container(), &no_border);
    assert_eq!(drawn.len(), 1);
    assert_eq!(drawn[0].element, StickElement::Knob);
    assert_eq!((drawn[0].x, drawn[0].y), (130, 110));

    let drawn = extract(&stick, &container(), &no_knob);
    assert_eq!(drawn.len(), 1);
    assert_eq!(drawn[0].element, StickElement::Outline);

    assert!(extract(&stick, &container(), &nothing).is_empty());

    // The value does not depend on what is drawn.
    stick.recompute_value();
    assert_eq!(stick.value(), Vec2::new(800_000, -600_000));
}

#[test]
fn extraction_names_the_images_that_it_missed() {
    let stick = dragged(TouchStickType::Dynamic, Vec2::new(50, 50), Vec2::new(130, -10));
    let report = |container: &ContainerMetrics, node: &TouchStickNode| {
        let mut extracted = Vec::new();
        extract_joystick_node(&mut extracted, 0, &stick, container, node)
    };
    let no_border = TouchStickNode { border_image_loaded: false, ..node() };
    let no_knob = TouchStickNode { knob_image_loaded: false, ..node() };
    assert_eq!(
        report(&container(), &node()),
        MissingImages { border_image: false, knob_image: false }
    );
    assert_eq!(
        report(&container(), &no_border),
        MissingImages { border_image: true, knob_image: false }
    );
    assert_eq!(
        report(&container(), &no_knob),
        MissingImages { border_image: false, knob_image: true }
    );
    // Nothing is missed where nothing would be drawn.
    let invisible = ContainerMetrics { visible: false, ..container() };
    let transparent = TouchStickNode { transparent: true, ..no_knob };
    assert_eq!(
        report(&invisible, &no_border),
        MissingImages { border_image: false, knob_image: false }
    );
    assert_eq!(
        report(&container(), &transparent),
        MissingImages { border_image: false, knob_image: false }
    );
}

#[test]
fn both_renderers_give_the_same_offsets() {
    let targets = [
        Vec2::new(50, 50),
        Vec2::new(130, -10),
        Vec2::new(50, 80),
        Vec2::new(-300, 47),
        Vec2::new(61, 50),
        Vec2::new(150, 150),
    ];
    for stick_type in ALL_TYPES {
        for to in targets {
            let stick = dragged(stick_type, Vec2::new(50, 50), to);
            let fb = stick.feedback();
            let patch = patch_stick_node(&stick, &container());
            let drawn = extract(&stick, &container(), &node());
            if !fb.visible {
                assert_eq!(patch.knob.display, DisplayMode::Hidden);
                assert_eq!(patch.outline.display, DisplayMode::Hidden);
                assert!(drawn.is_empty());
                continue;
            }
            let base = fb.anchor.unwrap_or(container().position);
            let styled = |offset: Option<StyleOffset>| match offset {
                Some(o) => (o.left as i64, -(o.bottom as i64)),
                None => (0, 0),
            };
            let extracted =
                |e: &ExtractedUiNode| (e.x - base.x as i64, e.y - base.y as i64);
            assert_eq!(drawn.len(), 2);
            assert_eq!(styled(patch.outline.offset), extracted(&drawn[0]));
            assert_eq!(styled(patch.knob.offset), extracted(&drawn[1]));
            assert_eq!(
                styled(patch.knob.offset), (fb.knob_offset.x as i64,
                fb.knob_offset.y as i64)
            );
            assert_eq!(
                styled(patch.outline.offset),
                (fb.outline_offset.x as i64, fb.outline_offset.y as i64)
            );
        }
    }
}
