//! From a drag to a value: displacement, dead zone and the unit-disk clamp.

use crate::fixed::{
    lemma_magnitude_square, lemma_norm_bounds_axes, lemma_rescaled_norm, lemma_scaled_norm,
    magnitude, magnitude_of, norm_sq, rescale, rescale_to, scale_toward_zero, scale_vec, ONE,
};
use crate::stick::{valid_config, DragSession, StickModel, TouchStickType};
use crate::vec2::Vec2;
use vstd::prelude::*;

verus! {

/// The point that a drag is measured from: where it started for a floating
/// stick, its base position for a fixed or a dynamic one.
pub open spec fn anchor(stick_type: TouchStickType, session: DragSession) -> Vec2 {
    match stick_type {
        TouchStickType::Floating => session.start_position,
        TouchStickType::Fixed | TouchStickType::Dynamic => session.base_position,
    }
}

/// The displacement of the pointer from the anchor of its drag.
pub open spec fn delta(stick_type: TouchStickType, session: DragSession) -> (int, int) {
    (
        session.current_position.x - anchor(stick_type, session).x,
        session.current_position.y - anchor(stick_type, session).y,
    )
}

/// Whether a displacement is too short to count as input: strictly shorter
/// than the dead zone.
pub open spec fn suppressed(delta: (int, int), dead_zone: int) -> bool {
    norm_sq(delta) < dead_zone * dead_zone
}

/// The value of a displacement, in millionths: zero inside the dead zone,
/// `delta / radius` up to the radius, and beyond it the displacement brought
/// to the length one, its direction kept. This clamps to the unit disk, not
/// to the unit square.
pub open spec fn normalize(delta: (int, int), radius: int, dead_zone: int) -> (int, int) {
    if suppressed(delta, dead_zone) {
        (0, 0)
    } else if norm_sq(delta) <= radius * radius {
        scale_vec(delta, ONE as int, radius)
    } else {
        rescale(delta, ONE as int)
    }
}

/// The value that a stick reports: zero at rest, the normalized displacement
/// during a drag.
pub open spec fn value_of(
    stick_type: TouchStickType,
    session: Option<DragSession>,
    radius: int,
    dead_zone: int,
) -> (int, int) {
    match session {
        None => (0, 0),
        Some(s) => normalize(delta(stick_type, s), radius, dead_zone),
    }
}

impl<S> StickModel<S> {
    /// The value that the drag, or its absence, calls for.
    pub open spec fn computed_value(self) -> (int, int) {
        value_of(self.stick_type, self.session, self.radius, self.dead_zone)
    }

    /// The stick after its value has been derived anew.
    pub open spec fn recompute(self) -> Self {
        StickModel { value: self.computed_value(), ..self }
    }

    /// Whether the value is the one that the drag calls for.
    pub open spec fn is_settled(self) -> bool {
        self.value == self.computed_value()
    }
}

/// A normalized displacement lies within the unit disk, however long the
/// displacement is.
pub proof fn lemma_normalize_in_unit_disk(delta: (int, int), radius: int, dead_zone: int)
    requires
        valid_config(radius, dead_zone),
    ensures
        norm_sq(normalize(delta, radius, dead_zone)) <= ONE * ONE,
        magnitude(normalize(delta, radius, dead_zone).0) <= ONE,
        magnitude(normalize(delta, radius, dead_zone).1) <= ONE,
{
    let v = normalize(delta, radius, dead_zone);
    if suppressed(delta, dead_zone) {
    } else if norm_sq(delta) <= radius * radius {
        lemma_scaled_norm(delta, ONE as int, radius);
    } else {
        assert(radius * radius >= 0) by (nonlinear_arith);
        lemma_rescaled_norm(delta, ONE as int);
    }
    lemma_norm_bounds_axes(v, ONE as int);
}

/// The value of a displacement given by its two axes.
fn normalize_delta(dx: i64, dy: i64, radius: i32, dead_zone: i32) -> (v: Vec2)
    requires
        valid_config(radius as int, dead_zone as int),
        -0x1_0000_0000 < dx < 0x1_0000_0000,
        -0x1_0000_0000 < dy < 0x1_0000_0000,
    ensures
        v@ == normalize((dx as int, dy as int), radius as int, dead_zone as int),
{
    let a: u64 = magnitude_of(dx);
    let b: u64 = magnitude_of(dy);
    let ghost d = (dx as int, dy as int);
    proof {
        lemma_magnitude_square(dx as int);
        lemma_magnitude_square(dy as int);
        assert(a * a <= 0xffff_ffff * 0xffff_ffff && b * b <= 0xffff_ffff * 0xffff_ffff)
            by (nonlinear_arith)
            requires
                0 <= a <= 0xffff_ffff,
                0 <= b <= 0xffff_ffff,
        ;
        assert(radius * radius <= 0x7fff_ffff * 0x7fff_ffff && 0 <= dead_zone * dead_zone
            <= 0x7fff_ffff * 0x7fff_ffff) by (nonlinear_arith)
            requires
                0 <= dead_zone < radius <= 0x7fff_ffff,
        ;
        lemma_normalize_in_unit_disk(d, radius as int, dead_zone as int);
    }
    let n2: u128 = (a as u128) * (a as u128) + (b as u128) * (b as u128);
    let r2: u128 = (radius as u128) * (radius as u128);
    let z2: u128 = (dead_zone as u128) * (dead_zone as u128);
    if n2 < z2 {
        Vec2::zero()
    } else if n2 <= r2 {
        let vx: i64 = scale_toward_zero(dx, ONE, radius as i64);
        let vy: i64 = scale_toward_zero(dy, ONE, radius as i64);
        Vec2 { x: vx as i32, y: vy as i32 }
    } else {
        let (vx, vy) = rescale_to(dx, dy, ONE);
        Vec2 { x: vx, y: vy }
    }
}

/// Derives the value of a stick from its behaviour, its drag and its
/// configuration: the value computer as a pure function.
pub fn compute_value(
    stick_type: TouchStickType,
    session: Option<DragSession>,
    radius: i32,
    dead_zone: i32,
) -> (v: Vec2)
    requires
        valid_config(radius as int, dead_zone as int),
    ensures
        v@ == value_of(stick_type, session, radius as int, dead_zone as int),
        norm_sq(v@) <= ONE * ONE,
{
    proof {
        if session is Some {
            lemma_normalize_in_unit_disk(
                delta(stick_type, session->Some_0),
                radius as int,
                dead_zone as int,
            );
        }
    }
    match session {
        None => Vec2::zero(),
        Some(s) => {
            let from = match stick_type {
                TouchStickType::Floating => s.start_position,
                TouchStickType::Fixed => s.base_position,
                TouchStickType::Dynamic => s.base_position,
            };
            let dx: i64 = s.current_position.x as i64 - from.x as i64;
            let dy: i64 = s.current_position.y as i64 - from.y as i64;
            normalize_delta(dx, dy, radius, dead_zone)
        },
    }
}

} // verus!
