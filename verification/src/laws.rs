//! What holds of every stick, stated over the models that the contracts use.

use crate::feedback::lemma_feedback_bounds;
use crate::fixed::{
    lemma_magnitude_square, lemma_norm_bounds_axes, lemma_scale_by_length,
    lemma_scale_magnitude, magnitude, norm_sq, rescale, scale_by_length, scale_vec, ONE,
};
use crate::joystick::{ExtractedUiNode, StickElement, TouchStickNode};
use crate::stick::{valid_config, DragSession, StickModel, TouchStickType};
use crate::ui::{display_of, patched_screen_offset, ContainerMetrics, DisplayMode};
use crate::value::{delta, lemma_normalize_in_unit_disk, normalize, suppressed, value_of};
use crate::vec2::Vec2;
use vstd::prelude::*;

verus! {

/// The value of a stick lies within the unit disk: under every behaviour,
/// for every drag, however far the pointer has gone.
pub proof fn lemma_value_in_unit_disk(
    stick_type: TouchStickType,
    session: Option<DragSession>,
    radius: int,
    dead_zone: int,
)
    requires
        valid_config(radius, dead_zone),
    ensures
        norm_sq(value_of(stick_type, session, radius, dead_zone)) <= ONE * ONE,
{
    match session {
        None => {},
        Some(s) => {
            lemma_normalize_in_unit_disk(delta(stick_type, s), radius, dead_zone);
        },
    }
}

/// Deriving the value keeps a stick well formed.
pub proof fn lemma_recompute_keeps_wf<S>(stick: StickModel<S>)
    requires
        stick.wf(),
    ensures
        stick.recompute().wf(),
{
    lemma_value_in_unit_disk(stick.stick_type, stick.session, stick.radius, stick.dead_zone);
}

/// Releasing the drag of a stick leaves it at rest with a value of exactly
/// zero, under every behaviour, and deriving the value afterwards keeps it
/// there.
pub proof fn lemma_release_resets_value<S>(stick: StickModel<S>, pointer_id: u64)
    requires
        stick.tracks(pointer_id),
    ensures
        stick.end(pointer_id).session is None,
        stick.end(pointer_id).value == (0int, 0int),
        stick.end(pointer_id).is_settled(),
        stick.end(pointer_id).recompute() == stick.end(pointer_id),
{
}

/// An event of a pointer that does not own the drag of a stick changes
/// nothing; in particular a move or a release that arrives after the drag
/// has ended is dropped.
pub proof fn lemma_stale_events_are_dropped<S>(
    stick: StickModel<S>,
    pointer_id: u64,
    position: Vec2,
)
    ensures
        !stick.tracks(pointer_id) ==> stick.update(pointer_id, position) == stick && stick.end(
            pointer_id,
        ) == stick,
        stick.end(pointer_id).update(pointer_id, position) == stick.end(pointer_id),
        stick.end(pointer_id).end(pointer_id) == stick.end(pointer_id),
        stick.session is Some ==> stick.begin(pointer_id, position, true) == stick,
{
}

/// A displacement strictly shorter than the dead zone gives a value of zero.
/// One exactly as long as the dead zone is not suppressed: it is scaled like
/// any other, and unless the radius exceeds a million screen units the value
/// differs from zero.
pub proof fn lemma_dead_zone(delta: (int, int), radius: int, dead_zone: int)
    requires
        valid_config(radius, dead_zone),
    ensures
        norm_sq(delta) < dead_zone * dead_zone ==> normalize(delta, radius, dead_zone) == (
            0int,
            0int,
        ),
        norm_sq(delta) == dead_zone * dead_zone ==> !suppressed(delta, dead_zone) && normalize(
            delta,
            radius,
            dead_zone,
        ) == scale_vec(delta, ONE as int, radius),
        norm_sq(delta) >= dead_zone * dead_zone && delta != (0int, 0int) && radius <= ONE
            ==> normalize(delta, radius, dead_zone) != (0int, 0int),
{
    assert(dead_zone * dead_zone <= radius * radius) by (nonlinear_arith)
        requires
            0 <= dead_zone < radius,
    ;
    if norm_sq(delta) >= dead_zone * dead_zone && delta != (0int, 0int) && radius <= ONE {
        let a = magnitude(delta.0);
        let b = magnitude(delta.1);
        let n = norm_sq(delta);
        lemma_magnitude_square(delta.0);
        lemma_magnitude_square(delta.1);
        let big = if a >= b {
            a
        } else {
            b
        };
        let axis = if a >= b {
            delta.0
        } else {
            delta.1
        };
        if n <= radius * radius {
            lemma_scale_magnitude(axis, ONE as int, radius);
            assert((big * ONE) / radius >= 1) by (nonlinear_arith)
                requires
                    big >= 1,
                    0 < radius <= ONE,
                    ONE == 1_000_000,
            {
                assert(big * ONE >= radius);
            }
        } else {
            lemma_scale_by_length(axis, ONE as int, n);
            let q = magnitude(scale_by_length(axis, ONE as int, n));
            if q == 0 {
                assert(n <= 2 * (big * big)) by (nonlinear_arith)
                    requires
                        n == a * a + b * b,
                        0 <= a <= big,
                        0 <= b <= big,
                ;
                assert(false) by (nonlinear_arith)
                    requires
                        ((q + 1) * (q + 1)) * n > (big * big) * (ONE * ONE),
                        q == 0,
                        n <= 2 * (big * big),
                        big >= 1,
                        ONE == 1_000_000,
                ;
            }
        }
    }
}

/// The clamp is to the unit disk and keeps the length at one: beyond the
/// radius, the value is no longer than one, and it would be longer than one
/// if each axis were one millionth larger.
pub proof fn lemma_clamped_value_has_length_one(delta: (int, int), radius: int, dead_zone: int)
    requires
        valid_config(radius, dead_zone),
        norm_sq(delta) > radius * radius,
    ensures
        ({
            let v = normalize(delta, radius, dead_zone);
            let x = magnitude(v.0);
            let y = magnitude(v.1);
            &&& v == rescale(delta, ONE as int)
            &&& norm_sq(v) <= ONE * ONE
            &&& (x + 1) * (x + 1) + (y + 1) * (y + 1) > ONE * ONE
        }),
{
    let n = norm_sq(delta);
    let k2 = ONE * ONE;
    assert(radius * radius >= dead_zone * dead_zone) by (nonlinear_arith)
        requires
            0 <= dead_zone < radius,
    ;
    lemma_normalize_in_unit_disk(delta, radius, dead_zone);
    lemma_magnitude_square(delta.0);
    lemma_magnitude_square(delta.1);
    lemma_scale_by_length(delta.0, ONE as int, n);
    lemma_scale_by_length(delta.1, ONE as int, n);
    let v = normalize(delta, radius, dead_zone);
    let x = magnitude(v.0);
    let y = magnitude(v.1);
    let sx = (x + 1) * (x + 1);
    let sy = (y + 1) * (y + 1);
    assert((sx + sy) * n > k2 * n) by (nonlinear_arith)
        requires
            sx * n > (delta.0 * delta.0) * k2,
            sy * n > (delta.1 * delta.1) * k2,
            n == delta.0 * delta.0 + delta.1 * delta.1,
    ;
    assert(sx + sy > k2) by (nonlinear_arith)
        requires
            (sx + sy) * n > k2 * n,
            n > 0,
    ;
}

/// A value points where its displacement points: each axis keeps its sign,
/// and the two axes keep their proportion up to the rounding of one
/// millionth on either axis.
pub proof fn lemma_value_keeps_direction(delta: (int, int), radius: int, dead_zone: int)
    requires
        valid_config(radius, dead_zone),
        !suppressed(delta, dead_zone),
    ensures
        ({
            let v = normalize(delta, radius, dead_zone);
            let a = magnitude(delta.0);
            let b = magnitude(delta.1);
            let x = magnitude(v.0);
            let y = magnitude(v.1);
            &&& delta.0 >= 0 ==> v.0 >= 0
            &&& delta.0 <= 0 ==> v.0 <= 0
            &&& delta.1 >= 0 ==> v.1 >= 0
            &&& delta.1 <= 0 ==> v.1 <= 0
            &&& x * b <= (y + 1) * a
            &&& y * a <= (x + 1) * b
        }),
{
    let n = norm_sq(delta);
    let k = ONE as int;
    let v = normalize(delta, radius, dead_zone);
    let a = magnitude(delta.0);
    let b = magnitude(delta.1);
    let x = magnitude(v.0);
    let y = magnitude(v.1);
    lemma_magnitude_square(delta.0);
    lemma_magnitude_square(delta.1);
    if n <= radius * radius {
        lemma_scale_magnitude(delta.0, k, radius);
        lemma_scale_magnitude(delta.1, k, radius);
        assert(x * radius <= a * k && (x + 1) * radius > a * k) by (nonlinear_arith)
            requires
                x == (a * k) / radius,
                radius > 0,
        ;
        assert(y * radius <= b * k && (y + 1) * radius > b * k) by (nonlinear_arith)
            requires
                y == (b * k) / radius,
                radius > 0,
        ;
        lemma_proportion(x, y, a, b, radius, k);
        lemma_proportion(y, x, b, a, radius, k);
    } else {
        assert(n > 0) by (nonlinear_arith)
            requires
                n > radius * radius,
        ;
        lemma_scale_by_length(delta.0, k, n);
        lemma_scale_by_length(delta.1, k, n);
        lemma_proportion_of_squares(x, y, a, b, n, k * k);
        lemma_proportion_of_squares(y, x, b, a, n, k * k);
    }
}

/// If `x` is at most `a * k / r` and `y + 1` is more than `b * k / r`, then
/// `x * b` is at most `(y + 1) * a`.
proof fn lemma_proportion(x: int, y: int, a: int, b: int, r: int, k: int)
    requires
        x >= 0,
        y >= 0,
        a >= 0,
        b >= 0,
        r > 0,
        k >= 0,
        x * r <= a * k,
        (y + 1) * r > b * k,
    ensures
        x * b <= (y + 1) * a,
{
    if x * b > (y + 1) * a {
        assert((x * b) * r <= (a * k) * b) by (nonlinear_arith)
            requires
                x * r <= a * k,
                b >= 0,
        ;
        assert(((y + 1) * a) * r >= (b * k) * a) by (nonlinear_arith)
            requires
                (y + 1) * r > b * k,
                a >= 0,
        ;
        assert((x * b) * r > ((y + 1) * a) * r) by (nonlinear_arith)
            requires
                x * b > (y + 1) * a,
                r > 0,
        ;
        assert((a * k) * b == (b * k) * a) by (nonlinear_arith);
    }
}

/// The same for squares: if `x² * n` is at most `a² * k2` and `(y + 1)² * n`
/// is more than `b² * k2`, then `x * b` is at most `(y + 1) * a`.
proof fn lemma_proportion_of_squares(x: int, y: int, a: int, b: int, n: int, k2: int)
    requires
        x >= 0,
        y >= 0,
        a >= 0,
        b >= 0,
        n > 0,
        k2 >= 0,
        (x * x) * n <= (a * a) * k2,
        ((y + 1) * (y + 1)) * n > (b * b) * k2,
    ensures
        x * b <= (y + 1) * a,
{
    let p = x * b;
    let q = (y + 1) * a;
    assert(p >= 0 && q >= 0) by (nonlinear_arith)
        requires
            p == x * b,
            q == (y + 1) * a,
            x >= 0,
            y >= 0,
            a >= 0,
            b >= 0,
    ;
    if p > q {
        assert(p * p > q * q) by (nonlinear_arith)
            requires
                p > q >= 0,
        ;
        assert(p * p == (x * x) * (b * b)) by (nonlinear_arith)
            requires
                p == x * b,
        ;
        assert(q * q == ((y + 1) * (y + 1)) * (a * a)) by (nonlinear_arith)
            requires
                q == (y + 1) * a,
        ;
        assert(x * x >= 0 && (y + 1) * (y + 1) >= 1 && a * a >= 0 && b * b >= 0)
            by (nonlinear_arith)
            requires
                y >= 0,
        ;
        lemma_proportion(x * x, (y + 1) * (y + 1) - 1, a * a, b * b, n, k2);
    }
}

/// The value computer gives the same value as often as it is asked: deriving
/// the value twice is deriving it once, and the result is the value that the
/// drag calls for.
pub proof fn lemma_recompute_is_idempotent<S>(stick: StickModel<S>)
    ensures
        stick.recompute().recompute() == stick.recompute(),
        stick.recompute().is_settled(),
        stick.is_settled() ==> stick.recompute() == stick,
{
}

/// Changing the behaviour of a stick at rest never gives it a value other
/// than zero: not at once, and not when the value is derived anew.
pub proof fn lemma_mode_change_at_rest<S>(stick: StickModel<S>, stick_type: TouchStickType)
    requires
        stick.wf(),
        stick.session is None,
    ensures
        (StickModel { stick_type, ..stick }).wf(),
        (StickModel { stick_type, ..stick }).value == (0int, 0int),
        (StickModel { stick_type, ..stick }).computed_value() == (0int, 0int),
        (StickModel { stick_type, ..stick }).recompute().value == (0int, 0int),
{
}

/// The two renderers agree. For a stick that is shown in a drawable
/// container, under every behaviour, the screen offset that the style patch
/// gives the knob or the outline equals the offset from the extraction base
/// at which the extraction draws it, and both equal the feedback offset.
pub proof fn lemma_renderers_agree<S>(
    stick: StickModel<S>,
    stack_index: usize,
    container: ContainerMetrics,
    node: TouchStickNode,
)
    requires
        stick.wf(),
        stick.visible(),
        container.drawable(),
    ensures
        patched_screen_offset(stick.knob_style_offset(container)) == stick.knob_offset(),
        patched_screen_offset(stick.outline_style_offset(container)) == stick.outline_offset(),
        ({
            let base = stick.extraction_base(container);
            let knob = stick.extracted(stack_index, container, node, StickElement::Knob);
            let outline = stick.extracted(stack_index, container, node, StickElement::Outline);
            &&& (knob.x - base.x, knob.y - base.y) == patched_screen_offset(
                stick.knob_style_offset(container),
            )
            &&& (outline.x - base.x, outline.y - base.y) == patched_screen_offset(
                stick.outline_style_offset(container),
            )
        }),
{
    lemma_feedback_bounds(stick);
    lemma_norm_bounds_axes(stick.knob_offset(), stick.radius);
    lemma_norm_bounds_axes(stick.outline_offset(), stick.radius);
}

/// The two renderers show and hide a stick together: the extraction draws
/// nothing of a stick whose elements the style patch hides, and where the
/// style patch shows them the extraction draws each element whose image is
/// loaded, unless the container cannot be drawn or the tint is transparent.
pub proof fn lemma_renderers_agree_on_visibility<S>(
    stick: StickModel<S>,
    stack_index: usize,
    container: ContainerMetrics,
    node: TouchStickNode,
    element: StickElement,
)
    ensures
        display_of(stick.visible()) == DisplayMode::Hidden ==> stick.extraction(
            stack_index,
            container,
            node,
        ) == Seq::<ExtractedUiNode>::empty(),
        display_of(stick.visible()) == DisplayMode::Flex && container.drawable()
            && !node.transparent && node.image_loaded(element) ==> stick.extraction_of(
            stack_index,
            container,
            node,
            element,
        ) == seq![stick.extracted(stack_index, container, node, element)],
{
    if !stick.visible() {
        assert(stick.extraction(stack_index, container, node) =~= Seq::<
            ExtractedUiNode,
        >::empty());
    }
}

} // verus!
