//! The sticks of one scene and the passes of a frame over them.
//!
//! A frame runs one input pass, which hands every pointer event to every
//! stick, and then one value pass. Sticks share no state, so what becomes of
//! one depends on that stick and the events alone.

use crate::feedback::Feedback;
use crate::stick::{StickModel, TouchStick};
use crate::vec2::Vec2;
use vstd::prelude::*;
use vstd::std_specs::cmp::PartialEqSpec;

verus! {

/// What a pointer or a touch did.
#[derive(Clone, Copy, Debug, PartialEq, Eq, Structural)]
pub enum PointerEvent {
    /// The pointer went down inside the interaction area of the stick at
    /// index `target`.
    Down { pointer_id: u64, position: Vec2, target: usize },
    /// The pointer moved.
    Move { pointer_id: u64, position: Vec2 },
    /// The pointer went up.
    Up { pointer_id: u64 },
    /// The gesture of the pointer was cancelled.
    Cancel { pointer_id: u64 },
}

/// The stick at `index` after `event`.
pub open spec fn after_event<S>(stick: StickModel<S>, index: int, event: PointerEvent)
    -> StickModel<S> {
    match event {
        PointerEvent::Down { pointer_id, position, target } => stick.begin(
            pointer_id,
            position,
            target == index,
        ),
        PointerEvent::Move { pointer_id, position } => stick.update(pointer_id, position),
        PointerEvent::Up { pointer_id } => stick.end(pointer_id),
        PointerEvent::Cancel { pointer_id } => stick.end(pointer_id),
    }
}

/// The stick at `index` after `events`, taken in order.
pub open spec fn after_events<S>(stick: StickModel<S>, index: int, events: Seq<PointerEvent>)
    -> StickModel<S>
    decreases events.len(),
{
    if events.len() == 0 {
        stick
    } else {
        after_event(after_events(stick, index, events.drop_last()), index, events.last())
    }
}

/// Whether every one of `sticks` is well formed.
pub open spec fn all_wf<S>(sticks: Seq<StickModel<S>>) -> bool {
    forall|i: int| 0 <= i < sticks.len() ==> (#[trigger] sticks[i]).wf()
}

/// Whether no two of `sticks` have the same identity, as far as the equality
/// of the identities is specified.
pub open spec fn distinct_ids<S: PartialEq>(sticks: Seq<StickModel<S>>) -> bool {
    S::obeys_eq_spec() ==> forall|i: int, j: int|
        0 <= i < j < sticks.len() ==> !(#[trigger] sticks[i]).id.eq_spec(&(#[trigger] sticks[j]).id)
}

/// Whether none of `sticks` has the identity `id`.
pub open spec fn id_is_free<S: PartialEq>(sticks: Seq<StickModel<S>>, id: S) -> bool {
    forall|i: int| 0 <= i < sticks.len() ==> !(#[trigger] sticks[i]).id.eq_spec(&id)
}

/// The sticks of one scene: one for each identity, addressed by their index.
pub struct StickRegistry<S> {
    sticks: Vec<TouchStick<S>>,
}

impl<S> View for StickRegistry<S> {
    type V = Seq<StickModel<S>>;

    closed spec fn view(&self) -> Seq<StickModel<S>> {
        self.sticks@.map_values(|s: TouchStick<S>| s@)
    }
}

impl<S: PartialEq> StickRegistry<S> {
    /// The invariant of the registry: every stick in it is well formed, and
    /// no two have the same identity.
    pub open spec fn wf(&self) -> bool {
        all_wf(self@) && distinct_ids(self@)
    }

    /// A registry without sticks.
    pub fn new() -> (registry: Self)
        ensures
            registry.wf(),
            registry@ == Seq::<StickModel<S>>::empty(),
    {
        StickRegistry { sticks: Vec::new() }
    }

    /// The number of sticks.
    pub fn len(&self) -> (n: usize)
        ensures
            n == self@.len(),
    {
        self.sticks.len()
    }

    /// The index of the stick with the identity `id`, if there is one.
    pub fn find(&self, id: &S) -> (found: Option<usize>)
        ensures
            S::obeys_eq_spec() ==> match found {
                Some(index) => index < self@.len() && self@[index as int].id.eq_spec(id)
                    && id_is_free(self@.take(index as int), *id),
                None => id_is_free(self@, *id),
            },
    {
        let mut i: usize = 0;
        while i < self.sticks.len()
            invariant
                i <= self.sticks@.len(),
                S::obeys_eq_spec() ==> id_is_free(self@.take(i as int), *id),
            decreases self.sticks@.len() - i,
        {
            assert(self.sticks@[i as int]@ == self@[i as int]);
            if self.sticks[i].id().eq(id) {
                return Some(i);
            }
            assert(self@.take(i as int + 1) =~= self@.take(i as int).push(self@[i as int]));
            i = i + 1;
        }
        assert(self@.take(i as int) =~= self@);
        None
    }

    /// Adds a stick behind the others and returns its index, unless there is
    /// a stick with the same identity already: then the registry stays as it
    /// is and the stick is handed back.
    pub fn add(&mut self, stick: TouchStick<S>) -> (added: Result<usize, TouchStick<S>>)
        requires
            old(self).wf(),
            stick.wf(),
        ensures
            final(self).wf(),
            match added {
                Ok(index) => index == old(self)@.len() && final(self)@ == old(self)@.push(
                    stick@,
                ),
                Err(refused) => refused == stick && final(self)@ == old(self)@,
            },
            S::obeys_eq_spec() ==> (added is Ok <==> id_is_free(old(self)@, stick@.id)),
    {
        match self.find(stick.id()) {
            Some(_) => Err(stick),
            None => {
                let index = self.sticks.len();
                self.sticks.push(stick);
                assert(self@ =~= old(self)@.push(stick@));
                Ok(index)
            },
        }
    }

    /// Takes the stick at `index` out, if there is one. The sticks behind it
    /// move up by one.
    pub fn remove(&mut self, index: usize) -> (removed: Option<TouchStick<S>>)
        requires
            old(self).wf(),
        ensures
            final(self).wf(),
            index >= old(self)@.len() ==> removed is None && final(self)@ == old(self)@,
            index < old(self)@.len() ==> removed is Some && removed->Some_0.wf()
                && removed->Some_0@ == old(self)@[index as int] && final(self)@ == old(
                self,
            )@.remove(index as int),
    {
        if index < self.sticks.len() {
            let stick = self.sticks.remove(index);
            assert(self@ =~= old(self)@.remove(index as int));
            assert(stick@ == old(self)@[index as int]);
            Some(stick)
        } else {
            None
        }
    }

    /// The stick at `index`, if there is one.
    pub fn get(&self, index: usize) -> (stick: Option<&TouchStick<S>>)
        requires
            self.wf(),
        ensures
            index >= self@.len() ==> stick is None,
            index < self@.len() ==> stick is Some && stick->Some_0.wf() && stick->Some_0@
                == self@[index as int],
    {
        if index < self.sticks.len() {
            let stick = &self.sticks[index];
            assert(stick@ == self@[index as int]);
            Some(stick)
        } else {
            None
        }
    }

    /// Hands one pointer event to every stick. A pointer that went down is
    /// offered to its target alone; a move, a release or a cancellation
    /// reaches the stick whose drag the pointer owns and is dropped by the
    /// others.
    pub fn handle_event(&mut self, event: PointerEvent)
        requires
            old(self).wf(),
        ensures
            final(self).wf(),
            final(self)@.len() == old(self)@.len(),
            forall|i: int|
                0 <= i < old(self)@.len() ==> #[trigger] final(self)@[i] == after_event(
                    old(self)@[i],
                    i,
                    event,
                ),
    {
        let n = self.sticks.len();
        let mut i: usize = 0;
        while i < n
            invariant
                i <= n,
                n == self.sticks@.len(),
                n == old(self)@.len(),
                old(self).wf(),
                forall|j: int|
                    0 <= j < i ==> (#[trigger] self.sticks@[j])@ == after_event(
                        old(self)@[j],
                        j,
                        event,
                    ),
                forall|j: int| i <= j < n ==> (#[trigger] self.sticks@[j])@ == old(self)@[j],
            decreases n - i,
        {
            match event {
                PointerEvent::Down { pointer_id, position, target } => {
                    self.sticks[i].begin(pointer_id, position, target == i);
                },
                PointerEvent::Move { pointer_id, position } => {
                    self.sticks[i].update(pointer_id, position);
                },
                PointerEvent::Up { pointer_id } => {
                    self.sticks[i].end(pointer_id);
                },
                PointerEvent::Cancel { pointer_id } => {
                    self.sticks[i].end(pointer_id);
                },
            }
            i = i + 1;
        }
    }

    /// Derives the value of every stick anew.
    pub fn recompute_values(&mut self)
        requires
            old(self).wf(),
        ensures
            final(self).wf(),
            final(self)@.len() == old(self)@.len(),
            forall|i: int|
                0 <= i < old(self)@.len() ==> #[trigger] final(self)@[i] == old(
                    self,
                )@[i].recompute(),
    {
        let n = self.sticks.len();
        let mut i: usize = 0;
        while i < n
            invariant
                i <= n,
                n == self.sticks@.len(),
                n == old(self)@.len(),
                old(self).wf(),
                forall|j: int|
                    0 <= j < i ==> (#[trigger] self.sticks@[j])@ == old(self)@[j].recompute()
                        && self.sticks@[j].wf(),
                forall|j: int| i <= j < n ==> (#[trigger] self.sticks@[j])@ == old(self)@[j],
            decreases n - i,
        {
            self.sticks[i].recompute_value();
            i = i + 1;
        }
    }

    /// The feedback of every stick, in the order of the sticks: the pass that
    /// both renderers start from.
    pub fn feedback(&self) -> (all: Vec<Feedback>)
        requires
            self.wf(),
        ensures
            all@.len() == self@.len(),
            forall|i: int|
                0 <= i < self@.len() ==> {
                    &&& (#[trigger] all@[i]).visible == self@[i].visible()
                    &&& all@[i].anchor == self@[i].feedback_anchor()
                    &&& all@[i].knob_offset@ == self@[i].knob_offset()
                    &&& all@[i].outline_offset@ == self@[i].outline_offset()
                },
    {
        let mut all: Vec<Feedback> = Vec::new();
        let mut i: usize = 0;
        while i < self.sticks.len()
            invariant
                i <= self.sticks@.len(),
                self.wf(),
                all@.len() == i,
                forall|j: int|
                    0 <= j < i ==> {
                        &&& (#[trigger] all@[j]).visible == self@[j].visible()
                        &&& all@[j].anchor == self@[j].feedback_anchor()
                        &&& all@[j].knob_offset@ == self@[j].knob_offset()
                        &&& all@[j].outline_offset@ == self@[j].outline_offset()
                    },
            decreases self.sticks@.len() - i,
        {
            assert(self.sticks@[i as int]@ == self@[i as int]);
            let fb = self.sticks[i].feedback();
            all.push(fb);
            i = i + 1;
        }
        all
    }

    /// Runs one frame: the input pass over `events`, in order, and then the
    /// value pass. Afterwards every value is the one that the stick's drag
    /// calls for.
    pub fn process_frame(&mut self, events: &Vec<PointerEvent>)
        requires
            old(self).wf(),
        ensures
            final(self).wf(),
            final(self)@.len() == old(self)@.len(),
            forall|i: int|
                0 <= i < old(self)@.len() ==> #[trigger] final(self)@[i] == after_events(
                    old(self)@[i],
                    i,
                    events@,
                ).recompute(),
            forall|i: int|
                0 <= i < final(self)@.len() ==> (#[trigger] final(self)@[i]).is_settled(),
    {
        let mut k: usize = 0;
        while k < events.len()
            invariant
                k <= events.len(),
                self.wf(),
                self@.len() == old(self)@.len(),
                forall|i: int|
                    0 <= i < old(self)@.len() ==> #[trigger] self@[i] == after_events(
                        old(self)@[i],
                        i,
                        events@.take(k as int),
                    ),
            decreases events.len() - k,
        {
            self.handle_event(events[k]);
            assert(events@.take(k as int + 1).drop_last() =~= events@.take(k as int));
            k = k + 1;
        }
        assert(events@.take(k as int) =~= events@);
        self.recompute_values();
    }
}

} // verus!
