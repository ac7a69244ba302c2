//! Where the knob and the outline of a stick go on screen.
//!
//! Both renderers take their geometry from here, so they cannot drift apart.

use crate::fixed::{
    lemma_magnitude_square, lemma_norm_bounds_axes, lemma_rescaled_norm, lemma_scale_within,
    lemma_scaled_norm, lemma_scaled_norm_ratio, magnitude, norm_sq, rescale, rescale_to,
    scale_toward_zero, scale_vec, HALF, ONE,
};
use crate::stick::{StickModel, TouchStick, TouchStickType};
use crate::vec2::Vec2;
use vstd::prelude::*;

verus! {

/// The outline of a dynamic stick travels this many times less far than its
/// knob.
pub const OUTLINE_DAMPING: i32 = 4;

/// `v` brought into the range from `lo` to `hi`.
pub open spec fn clamp_axis(v: int, lo: int, hi: int) -> int {
    if v < lo {
        lo
    } else if v > hi {
        hi
    } else {
        v
    }
}

/// The value that the knob of a fixed stick shows: each axis brought into
/// the range of one half either way, then the whole brought to a length of
/// one half. The reported value is not touched by this.
pub open spec fn visual_value(value: (int, int)) -> (int, int) {
    let boxed = (
        clamp_axis(value.0, -(HALF as int), HALF as int),
        clamp_axis(value.1, -(HALF as int), HALF as int),
    );
    if norm_sq(boxed) > HALF * HALF {
        rescale(boxed, HALF as int)
    } else {
        boxed
    }
}

/// A displacement as the value has it, with `y` growing upward, as an offset
/// on the screen, where `y` grows downward.
pub open spec fn to_screen(v: (int, int)) -> (int, int) {
    (v.0, -v.1)
}

/// The screen offset of a value that moves an element by `radius / den` of
/// a screen unit for every unit of value.
pub open spec fn screen_offset(value: (int, int), radius: int, den: int) -> (int, int) {
    to_screen(scale_vec(value, radius, den))
}

impl<S> StickModel<S> {
    /// Whether the knob and the outline are shown. A floating stick is shown
    /// only during a drag that gives a value other than zero.
    pub open spec fn visible(self) -> bool {
        match self.stick_type {
            TouchStickType::Fixed => true,
            TouchStickType::Floating => self.session is Some && self.value != (0int, 0int),
            TouchStickType::Dynamic => true,
        }
    }

    /// The screen position that the elements are placed around, or `None`
    /// where they stay at the place that layout gave them.
    pub open spec fn feedback_anchor(self) -> Option<Vec2> {
        match self.stick_type {
            TouchStickType::Fixed => None,
            TouchStickType::Floating => if self.visible() {
                Some(self.session->Some_0.start_position)
            } else {
                None
            },
            TouchStickType::Dynamic => self.last_base,
        }
    }

    /// The screen offset of the knob from the anchor.
    pub open spec fn knob_offset(self) -> (int, int) {
        match self.stick_type {
            TouchStickType::Fixed => screen_offset(
                visual_value(self.value),
                self.radius,
                ONE as int,
            ),
            TouchStickType::Floating => if self.visible() {
                screen_offset(self.value, self.radius, ONE as int)
            } else {
                (0, 0)
            },
            TouchStickType::Dynamic => screen_offset(self.value, self.radius, ONE as int),
        }
    }

    /// The screen offset of the outline from the anchor: a quarter of the
    /// knob's travel for a dynamic stick, none for the others.
    pub open spec fn outline_offset(self) -> (int, int) {
        match self.stick_type {
            TouchStickType::Fixed => (0, 0),
            TouchStickType::Floating => (0, 0),
            TouchStickType::Dynamic => screen_offset(
                self.value,
                self.radius,
                OUTLINE_DAMPING * ONE,
            ),
        }
    }
}

/// Where the elements of one stick go, and whether they are shown.
#[derive(Clone, Copy, Debug, PartialEq, Eq, Structural)]
pub struct Feedback {
    /// Whether the knob and the outline are shown.
    pub visible: bool,
    /// The screen position that both elements are placed around, or `None`
    /// where they stay at the place that layout gave them.
    pub anchor: Option<Vec2>,
    /// The offset of the knob from the anchor, in screen units.
    pub knob_offset: Vec2,
    /// The offset of the outline from the anchor, in screen units.
    pub outline_offset: Vec2,
}

/// The shown value of a fixed stick is no longer than one half.
pub proof fn lemma_visual_value_bound(value: (int, int))
    ensures
        norm_sq(visual_value(value)) <= HALF * HALF,
        magnitude(visual_value(value).0) <= HALF,
        magnitude(visual_value(value).1) <= HALF,
{
    let boxed = (
        clamp_axis(value.0, -(HALF as int), HALF as int),
        clamp_axis(value.1, -(HALF as int), HALF as int),
    );
    if norm_sq(boxed) > HALF * HALF {
        lemma_rescaled_norm(boxed, HALF as int);
    }
    lemma_norm_bounds_axes(visual_value(value), HALF as int);
}

/// An offset never leaves the circle of the stick's radius.
pub proof fn lemma_screen_offset_bound(value: (int, int), radius: int, den: int)
    requires
        radius >= 0,
        den > 0,
        norm_sq(value) <= den * den,
    ensures
        norm_sq(screen_offset(value, radius, den)) <= radius * radius,
        magnitude(screen_offset(value, radius, den).0) <= radius,
        magnitude(screen_offset(value, radius, den).1) <= radius,
{
    lemma_scaled_norm(value, radius, den);
    let s = scale_vec(value, radius, den);
    assert((-s.1) * (-s.1) == s.1 * s.1) by (nonlinear_arith);
    lemma_norm_bounds_axes(screen_offset(value, radius, den), radius);
}

/// The shown value of a fixed stick.
fn visual_value_of(value: Vec2) -> (w: Vec2)
    ensures
        w@ == visual_value(value@),
{
    let bx: i32 = if value.x < -HALF {
        -HALF
    } else if value.x > HALF {
        HALF
    } else {
        value.x
    };
    let by: i32 = if value.y < -HALF {
        -HALF
    } else if value.y > HALF {
        HALF
    } else {
        value.y
    };
    proof {
        lemma_magnitude_square(bx as int);
        lemma_magnitude_square(by as int);
        assert(bx * bx <= 500_000 * 500_000 && by * by <= 500_000 * 500_000)
            by (nonlinear_arith)
            requires
                -500_000 <= bx <= 500_000,
                -500_000 <= by <= 500_000,
        ;
    }
    let n2: i64 = (bx as i64) * (bx as i64) + (by as i64) * (by as i64);
    if n2 > (HALF as i64) * (HALF as i64) {
        assert(bx != 0 || by != 0) by (nonlinear_arith)
            requires
                bx * bx + by * by > 0,
        ;
        let (wx, wy) = rescale_to(bx as i64, by as i64, HALF);
        Vec2 { x: wx, y: wy }
    } else {
        Vec2 { x: bx, y: by }
    }
}

/// The screen offset of `value` at `radius / den` screen units per unit.
fn screen_offset_of(value: Vec2, radius: i32, den: i64) -> (o: Vec2)
    requires
        radius >= 0,
        den > 0,
        magnitude(value.x as int) <= den,
        magnitude(value.y as int) <= den,
    ensures
        o@ == screen_offset(value@, radius as int, den as int),
{
    proof {
        lemma_scale_within(value.x as int, radius as int, den as int);
        lemma_scale_within(value.y as int, radius as int, den as int);
    }
    let ox: i64 = scale_toward_zero(value.x as i64, radius, den);
    let oy: i64 = scale_toward_zero(value.y as i64, radius, den);
    Vec2 { x: ox as i32, y: (-oy) as i32 }
}

impl<S> TouchStick<S> {
    /// Where the knob and the outline of this stick go, and whether they are
    /// shown. Offsets are in screen units, with `y` growing downward, and
    /// stay within the stick's radius; for a fixed stick the knob stays
    /// within half of it.
    pub fn feedback(&self) -> (fb: Feedback)
        requires
            self.wf(),
        ensures
            fb.visible == self@.visible(),
            fb.anchor == self@.feedback_anchor(),
            fb.knob_offset@ == self@.knob_offset(),
            fb.outline_offset@ == self@.outline_offset(),
            norm_sq(fb.knob_offset@) <= self@.radius * self@.radius,
            norm_sq(fb.outline_offset@) <= self@.radius * self@.radius,
            self@.stick_type == TouchStickType::Fixed ==> 4 * norm_sq(fb.knob_offset@)
                <= self@.radius * self@.radius,
    {
        let value = self.value();
        let radius = self.radius();
        proof {
            lemma_norm_bounds_axes(value@, ONE as int);
            lemma_feedback_bounds(self@);
        }
        match self.stick_type() {
            TouchStickType::Fixed => {
                let shown = visual_value_of(value);
                proof {
                    lemma_visual_value_bound(value@);
                }
                Feedback {
                    visible: true,
                    anchor: None,
                    knob_offset: screen_offset_of(shown, radius, ONE as i64),
                    outline_offset: Vec2::zero(),
                }
            },
            TouchStickType::Floating => {
                let session = self.session();
                if session.is_some() && !value.is_zero() {
                    Feedback {
                        visible: true,
                        anchor: Some(session.unwrap().start_position),
                        knob_offset: screen_offset_of(value, radius, ONE as i64),
                        outline_offset: Vec2::zero(),
                    }
                } else {
                    Feedback {
                        visible: false,
                        anchor: None,
                        knob_offset: Vec2::zero(),
                        outline_offset: Vec2::zero(),
                    }
                }
            },
            TouchStickType::Dynamic => Feedback {
                visible: true,
                anchor: self.last_base(),
                knob_offset: screen_offset_of(value, radius, ONE as i64),
                outline_offset: screen_offset_of(
                    value,
                    radius,
                    (OUTLINE_DAMPING as i64) * (ONE as i64),
                ),
            },
        }
    }
}

/// The offsets of every well-formed stick stay within its radius, and the
/// knob of a fixed stick within half of it.
pub proof fn lemma_feedback_bounds<S>(stick: StickModel<S>)
    requires
        stick.wf(),
    ensures
        norm_sq(stick.knob_offset()) <= stick.radius * stick.radius,
        norm_sq(stick.outline_offset()) <= stick.radius * stick.radius,
        stick.stick_type == TouchStickType::Fixed ==> 4 * norm_sq(stick.knob_offset())
            <= stick.radius * stick.radius,
{
    let r = stick.radius;
    assert(r * r >= 0) by (nonlinear_arith);
    lemma_screen_offset_bound(stick.value, r, ONE as int);
    assert(norm_sq(stick.value) <= (4 * ONE) * (4 * ONE));
    lemma_screen_offset_bound(stick.value, r, 4 * ONE);
    let shown = visual_value(stick.value);
    lemma_visual_value_bound(stick.value);
    if stick.stick_type == TouchStickType::Fixed {
        let s = scale_vec(shown, r, ONE as int);
        lemma_scaled_norm_ratio(shown, r, ONE as int, HALF as int);
        assert((-s.1) * (-s.1) == s.1 * s.1) by (nonlinear_arith);
        let n = norm_sq(s);
        assert(4 * n <= r * r) by (nonlinear_arith)
            requires
                n * (1_000_000 * 1_000_000) <= (500_000 * 500_000) * (r * r),
        ;
    }
}

} // verus!
