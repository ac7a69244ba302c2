//! The renderer that extracts positioned draw primitives.

use crate::feedback::Feedback;
use crate::stick::{StickModel, TouchStick};
use crate::ui::ContainerMetrics;
use crate::vec2::Vec2;
use vstd::prelude::*;

verus! {

/// One of the two drawn elements of a stick.
#[derive(Clone, Copy, Debug, PartialEq, Eq, Structural)]
pub enum StickElement {
    /// The background or border of the stick.
    Outline,
    /// The handle that follows the pointer.
    Knob,
}

/// What the extraction needs to know of the node that draws a stick.
#[derive(Clone, Copy, Debug, PartialEq, Eq, Structural)]
pub struct TouchStickNode {
    /// Whether the image of the outline is loaded.
    pub border_image_loaded: bool,
    /// Whether the image of the knob is loaded.
    pub knob_image_loaded: bool,
    /// The width and height of the knob, in screen units.
    pub knob_size: Vec2,
    /// Whether the tint is fully transparent.
    pub transparent: bool,
}

impl TouchStickNode {
    /// Whether the image of `element` is loaded.
    pub open spec fn image_loaded(self, element: StickElement) -> bool {
        match element {
            StickElement::Outline => self.border_image_loaded,
            StickElement::Knob => self.knob_image_loaded,
        }
    }
}

/// Which elements of a stick the extraction had to leave out because their
/// image is not loaded, for the host to report.
#[derive(Clone, Copy, Debug, PartialEq, Eq, Structural)]
pub struct MissingImages {
    /// The outline would have been drawn, but its image is missing.
    pub border_image: bool,
    /// The knob would have been drawn, but its image is missing.
    pub knob_image: bool,
}

/// One positioned image, keyed by the stacking order of its node.
#[derive(Clone, Copy, Debug, PartialEq, Eq, Structural)]
pub struct ExtractedUiNode {
    /// The place of the stick's node in the stacking order.
    pub stack_index: usize,
    /// Which image to draw.
    pub element: StickElement,
    /// The screen position of the image.
    pub x: i64,
    pub y: i64,
    /// The width and height of the image.
    pub size: Vec2,
}

impl<S> StickModel<S> {
    /// The screen position that the extraction places the elements around:
    /// the anchor of the feedback, or the place that layout gave the node.
    pub open spec fn extraction_base(self, container: ContainerMetrics) -> Vec2 {
        match self.feedback_anchor() {
            Some(p) => p,
            None => container.position,
        }
    }

    /// The screen offset of `element` from the extraction base.
    pub open spec fn element_offset(self, element: StickElement) -> (int, int) {
        match element {
            StickElement::Outline => self.outline_offset(),
            StickElement::Knob => self.knob_offset(),
        }
    }

    /// Whether there is anything of the stick to see: it is shown in a
    /// drawable container and the tint is not fully transparent.
    pub open spec fn can_be_seen(self, container: ContainerMetrics, node: TouchStickNode) -> bool {
        &&& self.visible()
        &&& container.drawable()
        &&& !node.transparent
    }

    /// Whether the extraction draws `element`: the stick can be seen and the
    /// image of the element is loaded.
    pub open spec fn draws(
        self,
        container: ContainerMetrics,
        node: TouchStickNode,
        element: StickElement,
    ) -> bool {
        self.can_be_seen(container, node) && node.image_loaded(element)
    }

    /// Whether the extraction leaves `element` out for want of its image.
    pub open spec fn misses(
        self,
        container: ContainerMetrics,
        node: TouchStickNode,
        element: StickElement,
    ) -> bool {
        self.can_be_seen(container, node) && !node.image_loaded(element)
    }

    /// The primitive that the extraction makes of `element`.
    pub open spec fn extracted(
        self,
        stack_index: usize,
        container: ContainerMetrics,
        node: TouchStickNode,
        element: StickElement,
    ) -> ExtractedUiNode {
        ExtractedUiNode {
            stack_index,
            element,
            x: (self.extraction_base(container).x + self.element_offset(element).0) as i64,
            y: (self.extraction_base(container).y + self.element_offset(element).1) as i64,
            size: match element {
                StickElement::Outline => container.size,
                StickElement::Knob => node.knob_size,
            },
        }
    }

    /// What the extraction makes of `element`: one primitive, or nothing.
    pub open spec fn extraction_of(
        self,
        stack_index: usize,
        container: ContainerMetrics,
        node: TouchStickNode,
        element: StickElement,
    ) -> Seq<ExtractedUiNode> {
        if self.draws(container, node, element) {
            seq![self.extracted(stack_index, container, node, element)]
        } else {
            Seq::empty()
        }
    }

    /// What the extraction makes of a stick: the outline, then the knob on
    /// top of it, each only if it is drawn.
    pub open spec fn extraction(
        self,
        stack_index: usize,
        container: ContainerMetrics,
        node: TouchStickNode,
    ) -> Seq<ExtractedUiNode> {
        self.extraction_of(stack_index, container, node, StickElement::Outline)
            + self.extraction_of(stack_index, container, node, StickElement::Knob)
    }
}

/// Appends the draw primitives of one stick to `extracted`: its outline and
/// its knob, placed by the stick's feedback. An element whose image is
/// missing is left out without affecting the other, and the result names it.
pub fn extract_joystick_node<S>(
    extracted: &mut Vec<ExtractedUiNode>,
    stack_index: usize,
    stick: &TouchStick<S>,
    container: &ContainerMetrics,
    node: &TouchStickNode,
) -> (missing: MissingImages)
    requires
        stick.wf(),
    ensures
        final(extracted)@ == old(extracted)@ + stick@.extraction(stack_index, *container, *node),
        missing.border_image == stick@.misses(*container, *node, StickElement::Outline),
        missing.knob_image == stick@.misses(*container, *node, StickElement::Knob),
{
    let fb: Feedback = stick.feedback();
    if !fb.visible || !container.is_drawable() || node.transparent {
        return MissingImages { border_image: false, knob_image: false };
    }
    let base = match fb.anchor {
        Some(p) => p,
        None => container.position,
    };
    if node.border_image_loaded {
        extracted.push(
            ExtractedUiNode {
                stack_index,
                element: StickElement::Outline,
                x: base.x as i64 + fb.outline_offset.x as i64,
                y: base.y as i64 + fb.outline_offset.y as i64,
                size: container.size,
            },
        );
    }
    if node.knob_image_loaded {
        extracted.push(
            ExtractedUiNode {
                stack_index,
                element: StickElement::Knob,
                x: base.x as i64 + fb.knob_offset.x as i64,
                y: base.y as i64 + fb.knob_offset.y as i64,
                size: node.knob_size,
            },
        );
    }
    MissingImages {
        border_image: !node.border_image_loaded,
        knob_image: !node.knob_image_loaded,
    }
}

} // verus!
