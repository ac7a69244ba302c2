//! The stick record, its drag session and the session tracker.

use crate::fixed::{norm_sq, ONE};
use crate::value::compute_value;
use crate::vec2::Vec2;
use vstd::prelude::*;

verus! {

/// How a stick behaves while it is dragged and while it rests.
#[derive(Clone, Copy, Debug, PartialEq, Eq, Hash, Structural)]
pub enum TouchStickType {
    /// The stick never moves; the knob stays within the outline.
    Fixed,
    /// The stick appears where a drag starts and is hidden while it rests.
    Floating,
    /// The stick stays where it was last touched and is always shown.
    Dynamic,
}

/// One drag that currently drives a stick.
#[derive(Clone, Copy, Debug, PartialEq, Eq, Structural)]
pub struct DragSession {
    /// The pointer or touch that owns the drag. It is compared, never owned.
    pub drag_id: u64,
    /// Where the drag began: the anchor of a fixed or dynamic stick.
    pub base_position: Vec2,
    /// Where the drag began: the anchor of a floating stick.
    pub start_position: Vec2,
    /// Where the pointer is now.
    pub current_position: Vec2,
}

/// Why a stick configuration was refused.
#[derive(Clone, Copy, Debug, PartialEq, Eq, Structural)]
pub enum ConfigError {
    /// The radius is zero or negative.
    NonPositiveRadius,
    /// The dead zone is negative, or not smaller than the radius.
    DeadZoneOutOfRange,
    /// A drag is in progress, during which the configuration is frozen.
    SessionActive,
}

/// Whether `radius` and `dead_zone` make a usable configuration.
pub open spec fn valid_config(radius: int, dead_zone: int) -> bool {
    0 < radius && 0 <= dead_zone < radius
}

/// The mathematical content of a [`TouchStick`].
pub struct StickModel<S> {
    pub id: S,
    pub stick_type: TouchStickType,
    pub radius: int,
    pub dead_zone: int,
    pub session: Option<DragSession>,
    /// The base position of the latest drag, kept after it has ended.
    pub last_base: Option<Vec2>,
    pub value: (int, int),
}

impl<S> StickModel<S> {
    /// The stick as it is created: at rest and never touched.
    pub open spec fn created(
        id: S,
        stick_type: TouchStickType,
        radius: int,
        dead_zone: int,
    ) -> Self {
        StickModel {
            id,
            stick_type,
            radius,
            dead_zone,
            session: None,
            last_base: None,
            value: (0, 0),
        }
    }

    /// The invariant of every stick: a usable configuration, a value within
    /// the unit disk that is zero while the stick rests, and an anchor that
    /// follows the drag in progress.
    pub open spec fn wf(self) -> bool {
        &&& valid_config(self.radius, self.dead_zone)
        &&& self.radius <= i32::MAX
        &&& norm_sq(self.value) <= ONE * ONE
        &&& self.session is None ==> self.value == (0int, 0int)
        &&& self.session matches Some(s) ==> self.last_base == Some(s.base_position)
    }

    /// Whether a pointer that goes down at a place inside (`in_area`) or
    /// outside the stick's interaction area opens a drag.
    pub open spec fn accepts(self, in_area: bool) -> bool {
        self.session is None && in_area
    }

    /// Whether the drag in progress belongs to `pointer_id`.
    pub open spec fn tracks(self, pointer_id: u64) -> bool {
        self.session matches Some(s) && s.drag_id == pointer_id
    }

    /// The stick after a pointer went down at `position`.
    pub open spec fn begin(self, pointer_id: u64, position: Vec2, in_area: bool) -> Self {
        if self.accepts(in_area) {
            StickModel {
                session: Some(
                    DragSession {
                        drag_id: pointer_id,
                        base_position: position,
                        start_position: position,
                        current_position: position,
                    },
                ),
                last_base: Some(position),
                ..self
            }
        } else {
            self
        }
    }

    /// The stick after a pointer moved to `position`.
    pub open spec fn update(self, pointer_id: u64, position: Vec2) -> Self {
        if self.tracks(pointer_id) {
            StickModel {
                session: Some(
                    DragSession { current_position: position, ..self.session->Some_0 },
                ),
                ..self
            }
        } else {
            self
        }
    }

    /// The stick after a pointer went up or its gesture was cancelled.
    pub open spec fn end(self, pointer_id: u64) -> Self {
        if self.tracks(pointer_id) {
            StickModel { session: None, value: (0, 0), ..self }
        } else {
            self
        }
    }
}

/// The state of one virtual stick.
///
/// Positions and lengths are whole numbers of screen units. The value holds
/// each axis in millionths, so that `ONE` stands for full deflection.
#[derive(Clone, Debug)]
pub struct TouchStick<S> {
    id: S,
    stick_type: TouchStickType,
    radius: i32,
    dead_zone: i32,
    session: Option<DragSession>,
    last_base: Option<Vec2>,
    value: Vec2,
}

impl<S> View for TouchStick<S> {
    type V = StickModel<S>;

    closed spec fn view(&self) -> StickModel<S> {
        StickModel {
            id: self.id,
            stick_type: self.stick_type,
            radius: self.radius as int,
            dead_zone: self.dead_zone as int,
            session: self.session,
            last_base: self.last_base,
            value: self.value@,
        }
    }
}

impl<S> TouchStick<S> {
    /// The invariant that every function of this type keeps.
    pub open spec fn wf(&self) -> bool {
        self@.wf()
    }

    /// Creates a resting stick. The radius must be positive and the dead zone
    /// must lie in `0..radius`.
    pub fn new(id: S, stick_type: TouchStickType, radius: i32, dead_zone: i32) -> (r: Result<
        Self,
        ConfigError,
    >)
        ensures
            radius <= 0 ==> r == Err::<Self, ConfigError>(ConfigError::NonPositiveRadius),
            radius > 0 && !(0 <= dead_zone < radius) ==> r == Err::<Self, ConfigError>(
                ConfigError::DeadZoneOutOfRange,
            ),
            valid_config(radius as int, dead_zone as int) ==> r is Ok && r->Ok_0.wf() && r->Ok_0@
                == StickModel::created(id, stick_type, radius as int, dead_zone as int),
    {
        if radius <= 0 {
            Err(ConfigError::NonPositiveRadius)
        } else if dead_zone < 0 || dead_zone >= radius {
            Err(ConfigError::DeadZoneOutOfRange)
        } else {
            Ok(
                TouchStick {
                    id,
                    stick_type,
                    radius,
                    dead_zone,
                    session: None,
                    last_base: None,
                    value: Vec2::zero(),
                },
            )
        }
    }

    /// Replaces the radius and the dead zone. Refused while a drag is in
    /// progress, and for values that `new` would refuse; the stick is then
    /// left as it was.
    pub fn reconfigure(&mut self, radius: i32, dead_zone: i32) -> (r: Result<(), ConfigError>)
        requires
            old(self).wf(),
        ensures
            final(self).wf(),
            old(self)@.session is Some ==> r == Err::<(), ConfigError>(ConfigError::SessionActive),
            old(self)@.session is None && radius <= 0 ==> r == Err::<(), ConfigError>(
                ConfigError::NonPositiveRadius,
            ),
            old(self)@.session is None && radius > 0 && !(0 <= dead_zone < radius) ==> r == Err::<
                (),
                ConfigError,
            >(ConfigError::DeadZoneOutOfRange),
            old(self)@.session is None && valid_config(radius as int, dead_zone as int) ==> r
                is Ok,
            r is Err ==> final(self)@ == old(self)@,
            r is Ok ==> final(self)@ == (StickModel {
                radius: radius as int,
                dead_zone: dead_zone as int,
                ..old(self)@
            }),
    {
        if self.session.is_some() {
            Err(ConfigError::SessionActive)
        } else if radius <= 0 {
            Err(ConfigError::NonPositiveRadius)
        } else if dead_zone < 0 || dead_zone >= radius {
            Err(ConfigError::DeadZoneOutOfRange)
        } else {
            self.radius = radius;
            self.dead_zone = dead_zone;
            Ok(())
        }
    }

    /// Changes how the stick behaves. Nothing else changes: a resting stick
    /// keeps its zero value under every behaviour.
    pub fn set_stick_type(&mut self, stick_type: TouchStickType)
        requires
            old(self).wf(),
        ensures
            final(self).wf(),
            final(self)@ == (StickModel { stick_type, ..old(self)@ }),
    {
        self.stick_type = stick_type;
    }

    /// The identity that the stick was created with.
    pub fn id(&self) -> (id: &S)
        ensures
            *id == self@.id,
    {
        &self.id
    }

    /// How the stick behaves.
    pub fn stick_type(&self) -> (t: TouchStickType)
        ensures
            t == self@.stick_type,
    {
        self.stick_type
    }

    /// The greatest travel of the stick, in screen units.
    pub fn radius(&self) -> (r: i32)
        ensures
            r == self@.radius,
    {
        self.radius
    }

    /// The displacement below which a drag counts as no input.
    pub fn dead_zone(&self) -> (d: i32)
        ensures
            d == self@.dead_zone,
    {
        self.dead_zone
    }

    /// The drag in progress, if there is one.
    pub fn session(&self) -> (s: Option<DragSession>)
        ensures
            s == self@.session,
    {
        self.session
    }

    /// The base position of the latest drag, if there ever was one.
    pub fn last_base(&self) -> (p: Option<Vec2>)
        ensures
            p == self@.last_base,
    {
        self.last_base
    }

    /// The current value, in millionths. It lies within the unit disk.
    pub fn value(&self) -> (v: Vec2)
        ensures
            v@ == self@.value,
            self.wf() ==> norm_sq(v@) <= ONE * ONE,
    {
        self.value
    }

    /// Derives the value anew from the drag in progress, or from its absence.
    /// The result depends on nothing else, so a second call changes nothing.
    pub fn recompute_value(&mut self)
        requires
            old(self).wf(),
        ensures
            final(self).wf(),
            final(self)@ == old(self)@.recompute(),
            final(self)@.is_settled(),
    {
        self.value = compute_value(self.stick_type, self.session, self.radius, self.dead_zone);
    }

    /// A pointer went down at `position`. Opens a drag if the stick has none
    /// and the position lies inside its interaction area (`in_area`); does
    /// nothing otherwise. Returns whether a drag was opened.
    pub fn begin(&mut self, pointer_id: u64, position: Vec2, in_area: bool) -> (opened: bool)
        requires
            old(self).wf(),
        ensures
            final(self).wf(),
            opened == old(self)@.accepts(in_area),
            final(self)@ == old(self)@.begin(pointer_id, position, in_area),
    {
        if self.session.is_none() && in_area {
            self.session = Some(
                DragSession {
                    drag_id: pointer_id,
                    base_position: position,
                    start_position: position,
                    current_position: position,
                },
            );
            self.last_base = Some(position);
            true
        } else {
            false
        }
    }

    /// A pointer moved to `position`. Follows it if the drag in progress
    /// belongs to that pointer; does nothing otherwise. Returns whether the
    /// move was taken.
    pub fn update(&mut self, pointer_id: u64, position: Vec2) -> (followed: bool)
        requires
            old(self).wf(),
        ensures
            final(self).wf(),
            followed == old(self)@.tracks(pointer_id),
            final(self)@ == old(self)@.update(pointer_id, position),
    {
        match self.session {
            Some(s) => {
                if s.drag_id == pointer_id {
                    self.session = Some(
                        DragSession {
                            drag_id: s.drag_id,
                            base_position: s.base_position,
                            start_position: s.start_position,
                            current_position: position,
                        },
                    );
                    true
                } else {
                    false
                }
            },
            None => false,
        }
    }

    /// A pointer went up, or its gesture was cancelled. Closes the drag in
    /// progress if it belongs to that pointer and resets the value to zero;
    /// does nothing otherwise. Returns whether a drag was closed.
    pub fn end(&mut self, pointer_id: u64) -> (closed: bool)
        requires
            old(self).wf(),
        ensures
            final(self).wf(),
            closed == old(self)@.tracks(pointer_id),
            final(self)@ == old(self)@.end(pointer_id),
    {
        match self.session {
            Some(s) => {
                if s.drag_id == pointer_id {
                    self.session = None;
                    self.value = Vec2::zero();
                    true
                } else {
                    false
                }
            },
            None => false,
        }
    }
}

} // verus!
