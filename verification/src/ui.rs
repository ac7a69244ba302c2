//! The renderer that patches the layout style of the knob and the outline.

use crate::feedback::Feedback;
use crate::fixed::lemma_norm_bounds_axes;
use crate::stick::{StickModel, TouchStick, TouchStickType};
use crate::vec2::Vec2;
use vstd::prelude::*;

verus! {

/// What layout reports of the node that contains a stick.
#[derive(Clone, Copy, Debug, PartialEq, Eq, Structural)]
pub struct ContainerMetrics {
    /// Whether the node is visible at all.
    pub visible: bool,
    /// The width and height of the node, in screen units.
    pub size: Vec2,
    /// The screen position that layout gave the node.
    pub position: Vec2,
}

impl ContainerMetrics {
    /// Whether anything can be drawn in the node: it is visible and neither
    /// side is zero.
    pub open spec fn drawable(self) -> bool {
        self.visible && self.size.x != 0 && self.size.y != 0
    }

    /// Whether anything can be drawn in the node.
    pub fn is_drawable(&self) -> (d: bool)
        ensures
            d == self.drawable(),
    {
        self.visible && self.size.x != 0 && self.size.y != 0
    }
}

/// Whether an element takes part in layout.
#[derive(Clone, Copy, Debug, PartialEq, Eq, Structural)]
pub enum DisplayMode {
    /// The element is laid out and drawn.
    Flex,
    /// The element is left out.
    Hidden,
}

/// A place given by the distance from the left edge and from the bottom edge
/// of the parent. A larger `bottom` is higher up on the screen.
#[derive(Clone, Copy, Debug, PartialEq, Eq, Structural)]
pub struct StyleOffset {
    pub left: i32,
    pub bottom: i32,
}

impl View for StyleOffset {
    type V = (int, int);

    open spec fn view(&self) -> (int, int) {
        (self.left as int, self.bottom as int)
    }
}

/// What to write into the style of one element.
#[derive(Clone, Copy, Debug, PartialEq, Eq, Structural)]
pub struct StylePatch {
    /// The display mode to set.
    pub display: DisplayMode,
    /// The offsets to set, or `None` to leave the ones in place.
    pub offset: Option<StyleOffset>,
}

/// What to write into the styles of the two elements of one stick.
#[derive(Clone, Copy, Debug, PartialEq, Eq, Structural)]
pub struct StickPatch {
    pub knob: StylePatch,
    pub outline: StylePatch,
}

/// The display mode of an element that is shown or not.
pub open spec fn display_of(visible: bool) -> DisplayMode {
    if visible {
        DisplayMode::Flex
    } else {
        DisplayMode::Hidden
    }
}

/// A screen offset, where `y` grows downward, as distances from the left and
/// from the bottom.
pub open spec fn to_style(screen: (int, int)) -> (int, int) {
    (screen.0, -screen.1)
}

/// The screen offset that a patch gives an element: none where the patch
/// leaves the offsets alone.
pub open spec fn patched_screen_offset(offset: Option<(int, int)>) -> (int, int) {
    match offset {
        Some(o) => (o.0, -o.1),
        None => (0, 0),
    }
}

/// The offsets of a patch as a pair of numbers.
pub open spec fn offset_view(offset: Option<StyleOffset>) -> Option<(int, int)> {
    match offset {
        Some(o) => Some(o@),
        None => None,
    }
}

impl<S> StickModel<S> {
    /// The offsets that the style patch gives the knob: its feedback offset
    /// while the stick is shown in a drawable container, none otherwise.
    pub open spec fn knob_style_offset(self, container: ContainerMetrics) -> Option<(int, int)> {
        if self.visible() && container.drawable() {
            Some(to_style(self.knob_offset()))
        } else {
            None
        }
    }

    /// The offsets that the style patch gives the outline: its feedback
    /// offset for a dynamic stick in a drawable container, none otherwise,
    /// since no other outline ever leaves its place.
    pub open spec fn outline_style_offset(self, container: ContainerMetrics) -> Option<
        (int, int),
    > {
        if self.stick_type == TouchStickType::Dynamic && container.drawable() {
            Some(to_style(self.outline_offset()))
        } else {
            None
        }
    }
}

/// The feedback offset `screen` as a style offset.
fn style_offset_of(screen: Vec2) -> (o: StyleOffset)
    requires
        screen.y > i32::MIN,
    ensures
        o@ == to_style(screen@),
{
    StyleOffset { left: screen.x, bottom: -screen.y }
}

/// Computes what the style-patching renderer writes for one stick: the
/// display mode of the knob and of the outline, and the offsets that place
/// them, taken from the stick's feedback.
pub fn patch_stick_node<S>(stick: &TouchStick<S>, container: &ContainerMetrics) -> (patch:
    StickPatch)
    requires
        stick.wf(),
    ensures
        patch.knob.display == display_of(stick@.visible()),
        patch.outline.display == display_of(stick@.visible()),
        offset_view(patch.knob.offset) == stick@.knob_style_offset(*container),
        offset_view(patch.outline.offset) == stick@.outline_style_offset(*container),
{
    let fb: Feedback = stick.feedback();
    let drawable = container.is_drawable();
    let display = if fb.visible {
        DisplayMode::Flex
    } else {
        DisplayMode::Hidden
    };
    proof {
        lemma_norm_bounds_axes(fb.knob_offset@, stick@.radius);
        lemma_norm_bounds_axes(fb.outline_offset@, stick@.radius);
    }
    let knob_offset = if fb.visible && drawable {
        Some(style_offset_of(fb.knob_offset))
    } else {
        None
    };
    let outline_offset = match stick.stick_type() {
        TouchStickType::Dynamic => if drawable {
            Some(style_offset_of(fb.outline_offset))
        } else {
            None
        },
        TouchStickType::Fixed => None,
        TouchStickType::Floating => None,
    };
    StickPatch {
        knob: StylePatch { display, offset: knob_offset },
        outline: StylePatch { display, offset: outline_offset },
    }
}

} // verus!
