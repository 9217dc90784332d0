//! Mixer bookkeeping: the action slot table with stable handles, and the
//! events and counters one mixer tick reports.

use vstd::prelude::*;

use crate::action::{ActionState, drain_markers_until, fired_markers, kept_markers, reset_markers, ActionHandle};

verus! {

/// A discrete event produced while advancing the mixer.
#[derive(Clone, Debug, PartialEq)]
pub enum AnimationEvent {
    /// An action completed a loop wrap.
    Loop {
        /// Slot index of the action.
        action: usize,
        /// New iteration counter.
        iteration: u32,
    },
    /// An action crossed a named marker.
    Marker {
        /// Slot index of the action.
        action: usize,
        /// Marker name.
        name: String,
    },
    /// An action finished (Once exhausted or max iterations reached).
    Finished {
        /// Slot index of the action.
        action: usize,
    },
}

/// Aggregate result of one mixer tick.
#[derive(Clone, Debug)]
pub struct MixerTickResult {
    /// Events fired this tick, in deterministic order.
    pub events: Vec<AnimationEvent>,
    /// Actions that were active (playing) this tick.
    pub active_actions: usize,
    /// Actions that transitioned to `Finished` this tick.
    pub finished_actions: usize,
}

impl Default for MixerTickResult {
    fn default() -> (result: Self)
        ensures
            result.events@.len() == 0,
            result.active_actions == 0,
            result.finished_actions == 0,
    {
        MixerTickResult { events: Vec::new(), active_actions: 0, finished_actions: 0 }
    }
}

/// What one tick does with one action: its state afterwards and whether it
/// counts as active and as finished in the tick result.
#[derive(Clone, Copy, Debug, PartialEq, Eq, Structural)]
pub struct TickOutcome {
    /// The action's state after the tick.
    pub state: ActionState,
    /// Whether the action was playing, and so counted as active.
    pub active: bool,
    /// Whether the action's clock finished this tick.
    pub finished: bool,
}

/// The outcome of one tick for an action in `state`: only a playing action is
/// active; with its clip present, a clock that finished marks it finished (and
/// counted), and a weight that faded out to zero also marks it finished
/// (without being counted); everything else keeps its state.
pub open spec fn tick_outcome_for(
    state: ActionState,
    clip_present: bool,
    clock_finished: bool,
    faded_out: bool,
) -> TickOutcome {
    if state != ActionState::Playing {
        TickOutcome { state, active: false, finished: false }
    } else if !clip_present {
        TickOutcome { state, active: true, finished: false }
    } else {
        TickOutcome {
            state: if clock_finished || faded_out {
                ActionState::Finished
            } else {
                state
            },
            active: true,
            finished: clock_finished,
        }
    }
}

/// Decides what one tick does with an action, given whether its clip exists,
/// whether its clock finished, and whether its weight faded out.
pub fn tick_outcome(state: ActionState, clip_present: bool, clock_finished: bool, faded_out: bool) -> (outcome:
    TickOutcome)
    ensures
        outcome == tick_outcome_for(state, clip_present, clock_finished, faded_out),
{
    if !state.is_playing() {
        TickOutcome { state, active: false, finished: false }
    } else if !clip_present {
        TickOutcome { state, active: true, finished: false }
    } else {
        let next = if clock_finished || faded_out {
            ActionState::Finished
        } else {
            state
        };
        TickOutcome { state: next, active: true, finished: clock_finished }
    }
}

impl MixerTickResult {
    /// Counts one action's outcome into the tick result.
    pub fn record_outcome(&mut self, outcome: TickOutcome)
        requires
            old(self).active_actions < usize::MAX,
            old(self).finished_actions < usize::MAX,
        ensures
            final(self).events == old(self).events,
            final(self).active_actions == old(self).active_actions + if outcome.active {
                1usize
            } else {
                0usize
            },
            final(self).finished_actions == old(self).finished_actions + if outcome.finished {
                1usize
            } else {
                0usize
            },
    {
        if outcome.active {
            self.active_actions = self.active_actions + 1;
        }
        if outcome.finished {
            self.finished_actions = self.finished_actions + 1;
        }
    }
}

/// A tick never starts an action: an action that was not playing keeps its
/// state and counts for nothing, a finished action is always an active one,
/// and a playing action either keeps playing or finishes.
pub proof fn lemma_tick_never_starts(
    state: ActionState,
    clip_present: bool,
    clock_finished: bool,
    faded_out: bool,
)
    ensures
        ({
            let o = tick_outcome_for(state, clip_present, clock_finished, faded_out);
            &&& state != ActionState::Playing ==> o.state == state && !o.active && !o.finished
            &&& o.finished ==> o.active && o.state == ActionState::Finished
            &&& state == ActionState::Playing ==> (o.state == ActionState::Playing || o.state
                == ActionState::Finished)
        }),
{
}

/// Number of outcomes counted as active.
pub open spec fn active_count(outcomes: Seq<TickOutcome>) -> nat
    decreases outcomes.len(),
{
    if outcomes.len() == 0 {
        0
    } else {
        active_count(outcomes.drop_last()) + if outcomes.last().active {
            1nat
        } else {
            0nat
        }
    }
}

/// Number of outcomes counted as finished.
pub open spec fn finished_count(outcomes: Seq<TickOutcome>) -> nat
    decreases outcomes.len(),
{
    if outcomes.len() == 0 {
        0
    } else {
        finished_count(outcomes.drop_last()) + if outcomes.last().finished {
            1nat
        } else {
            0nat
        }
    }
}

/// Number of finished events among `events`.
pub open spec fn finished_event_count(events: Seq<AnimationEvent>) -> nat
    decreases events.len(),
{
    if events.len() == 0 {
        0
    } else {
        finished_event_count(events.drop_last()) + if events.last() is Finished {
            1nat
        } else {
            0nat
        }
    }
}

impl MixerTickResult {
    /// Counts the outcomes of every action of a tick into the result.
    pub fn tally(&mut self, outcomes: &[TickOutcome])
        requires
            old(self).active_actions + outcomes@.len() <= usize::MAX,
            old(self).finished_actions + outcomes@.len() <= usize::MAX,
        ensures
            final(self).events == old(self).events,
            final(self).active_actions == old(self).active_actions + active_count(outcomes@),
            final(self).finished_actions == old(self).finished_actions + finished_count(outcomes@),
    {
        let mut i: usize = 0;
        while i < outcomes.len()
            invariant
                i <= outcomes@.len(),
                self.events == old(self).events,
                self.active_actions == old(self).active_actions + active_count(outcomes@.take(i as int)),
                self.finished_actions == old(self).finished_actions + finished_count(
                    outcomes@.take(i as int),
                ),
                active_count(outcomes@.take(i as int)) <= i,
                finished_count(outcomes@.take(i as int)) <= i,
                old(self).active_actions + outcomes@.len() <= usize::MAX,
                old(self).finished_actions + outcomes@.len() <= usize::MAX,
            decreases outcomes@.len() - i,
        {
            proof {
                assert(outcomes@.take(i as int + 1).drop_last() =~= outcomes@.take(i as int));
            }
            let o = outcomes[i];
            if o.active {
                self.active_actions = self.active_actions + 1;
            }
            if o.finished {
                self.finished_actions = self.finished_actions + 1;
            }
            i = i + 1;
        }
        proof {
            assert(outcomes@.take(outcomes@.len() as int) =~= outcomes@);
        }
    }
}

/// Finished events add up over concatenated event lists.
pub proof fn lemma_finished_events_add(a: Seq<AnimationEvent>, b: Seq<AnimationEvent>)
    ensures
        finished_event_count(a + b) == finished_event_count(a) + finished_event_count(b),
    decreases b.len(),
{
    if b.len() > 0 {
        lemma_finished_events_add(a, b.drop_last());
        assert((a + b).drop_last() =~= a + b.drop_last());
    } else {
        assert(a + b =~= a);
    }
}

/// Marker events are never finished events.
proof fn lemma_marker_events_not_finished(slot: usize, fired: Seq<usize>, names: Seq<String>)
    ensures
        finished_event_count(marker_events(slot, fired, names)) == 0,
    decreases fired.len(),
{
    if fired.len() > 0 {
        lemma_marker_events_not_finished(slot, fired.drop_last(), names);
        let before = marker_events(slot, fired.drop_last(), names);
        if fired.last() < names.len() {
            assert(before.push(
                AnimationEvent::Marker { action: slot, name: names[fired.last() as int] },
            ).drop_last() =~= before);
        }
    }
}

/// The finished count agrees with the events: a playing action with its clip
/// reports exactly as many finished events as its outcome counts finished
/// actions (one when its clock finished, none otherwise).
pub proof fn lemma_finished_count_matches_events(
    slot: usize,
    wrapped: bool,
    iteration: u32,
    clock_finished: bool,
    faded_out: bool,
    fired: Seq<usize>,
    names: Seq<String>,
)
    ensures
        finished_event_count(action_events(slot, wrapped, iteration, clock_finished, fired, names))
            == finished_count(seq![tick_outcome_for(ActionState::Playing, true, clock_finished, faded_out)]),
{
    let loops: Seq<AnimationEvent> = if wrapped {
        seq![AnimationEvent::Loop { action: slot, iteration }]
    } else {
        Seq::empty()
    };
    let fins: Seq<AnimationEvent> = if clock_finished {
        seq![AnimationEvent::Finished { action: slot }]
    } else {
        Seq::empty()
    };
    let marks = marker_events(slot, fired, names);
    lemma_marker_events_not_finished(slot, fired, names);
    lemma_finished_events_add(loops + fins, marks);
    lemma_finished_events_add(loops, fins);
    reveal_with_fuel(finished_event_count, 2);
    reveal_with_fuel(finished_count, 2);
    let single = seq![tick_outcome_for(ActionState::Playing, true, clock_finished, faded_out)];
    assert(single.drop_last() =~= Seq::<TickOutcome>::empty());
    if wrapped {
        assert(loops.drop_last() =~= Seq::<AnimationEvent>::empty());
    }
    if clock_finished {
        assert(fins.drop_last() =~= Seq::<AnimationEvent>::empty());
    }
}

/// Marker events for the fired marker indices of the action in `slot`, in
/// firing order; indices without a marker are skipped.
pub open spec fn marker_events(slot: usize, fired: Seq<usize>, names: Seq<String>) -> Seq<
    AnimationEvent,
>
    decreases fired.len(),
{
    if fired.len() == 0 {
        Seq::empty()
    } else {
        let before = marker_events(slot, fired.drop_last(), names);
        let m = fired.last();
        if m < names.len() {
            before.push(AnimationEvent::Marker { action: slot, name: names[m as int] })
        } else {
            before
        }
    }
}

/// The events one tick reports for the action in `slot`: a loop event when
/// its clock wrapped, a finished event when it finished, then one marker
/// event per marker crossed.
pub open spec fn action_events(
    slot: usize,
    wrapped: bool,
    iteration: u32,
    finished: bool,
    fired: Seq<usize>,
    names: Seq<String>,
) -> Seq<AnimationEvent> {
    (if wrapped {
        seq![AnimationEvent::Loop { action: slot, iteration }]
    } else {
        Seq::empty()
    }) + (if finished {
        seq![AnimationEvent::Finished { action: slot }]
    } else {
        Seq::empty()
    }) + marker_events(slot, fired, names)
}

/// The pending markers a tick drains: the whole clip again after a wrap,
/// otherwise those still pending.
pub open spec fn pending_before_drain(pending: Seq<usize>, wrapped: bool, marker_count: nat) -> Seq<
    usize,
> {
    if wrapped {
        Seq::new(marker_count, |i: int| i as usize)
    } else {
        pending
    }
}

/// Records the events of one action for one mixer tick, after its clock has
/// advanced: re-arms every marker on a wrap, then drains the markers at or
/// before the new time (`time_key`).
pub fn record_action_events(
    events: &mut Vec<AnimationEvent>,
    pending: &mut Vec<usize>,
    slot: usize,
    wrapped: bool,
    iteration: u32,
    finished: bool,
    time_key: u32,
    marker_keys: &[u32],
    marker_names: &[String],
)
    ensures
        ({
            let armed = pending_before_drain(old(pending)@, wrapped, marker_keys@.len());
            &&& final(events)@ == old(events)@ + action_events(
                slot,
                wrapped,
                iteration,
                finished,
                fired_markers(armed, marker_keys@, time_key),
                marker_names@,
            )
            &&& final(pending)@ == kept_markers(armed, marker_keys@, time_key)
        }),
{
    let ghost start = events@;
    if wrapped {
        events.push(AnimationEvent::Loop { action: slot, iteration });
        reset_markers(pending, marker_keys.len());
    }
    if finished {
        events.push(AnimationEvent::Finished { action: slot });
    }
    let ghost head = events@;
    let fired = drain_markers_until(pending, time_key, marker_keys);
    let mut i: usize = 0;
    while i < fired.len()
        invariant
            i <= fired@.len(),
            events@ == head + marker_events(slot, fired@.take(i as int), marker_names@),
        decreases fired@.len() - i,
    {
        let m = fired[i];
        proof {
            assert(fired@.take(i as int + 1).drop_last() =~= fired@.take(i as int));
        }
        if m < marker_names.len() {
            let name = marker_names[m].clone();
            events.push(AnimationEvent::Marker { action: slot, name });
        }
        i = i + 1;
        assert(events@ =~= head + marker_events(slot, fired@.take(i as int), marker_names@));
    }
    assert(fired@.take(fired@.len() as int) =~= fired@);
    assert(events@ =~= start + action_events(slot, wrapped, iteration, finished, fired@, marker_names@));
}

/// Abstract value of an [`ActionSlots`] table.
pub struct SlotsView<A> {
    /// Slot contents; `None` slots are free.
    pub slots: Seq<Option<A>>,
    /// Free slot indices, reused last-freed first.
    pub free: Seq<usize>,
}

/// Number of occupied slots.
pub open spec fn live_count<A>(slots: Seq<Option<A>>) -> nat
    decreases slots.len(),
{
    if slots.len() == 0 {
        0
    } else {
        live_count(slots.drop_last()) + if slots.last() is Some {
            1nat
        } else {
            0nat
        }
    }
}

/// Action slots with stable handles: removed slots are free and reused.
///
/// Every free slot is listed exactly once in the free list, and every listed
/// slot is free.
#[derive(Debug)]
pub struct ActionSlots<A> {
    slots: Vec<Option<A>>,
    free: Vec<usize>,
}

impl<A> View for ActionSlots<A> {
    type V = SlotsView<A>;

    closed spec fn view(&self) -> SlotsView<A> {
        SlotsView { slots: self.slots@, free: self.free@ }
    }
}

/// Every free slot is listed exactly once in the free list, and every listed
/// slot is free.
pub open spec fn slots_valid<A>(v: SlotsView<A>) -> bool {
    &&& forall|i: int|
        0 <= i < v.free.len() ==> #[trigger] v.free[i] < v.slots.len() && v.slots[v.free[i] as int] is None
    &&& forall|i: int, j: int| 0 <= i < j < v.free.len() ==> v.free[i] != v.free[j]
    &&& forall|k: int| 0 <= k < v.slots.len() && #[trigger] v.slots[k] is None ==> v.free.contains(k as usize)
}

impl<A> ActionSlots<A> {
    /// The table's invariant: its view is valid. (It stays a precondition:
    /// `get_mut` hands out a mutable borrow into the slots, which a type
    /// invariant on the table cannot allow.)
    pub open spec fn well_formed(&self) -> bool {
        slots_valid(self@)
    }

    /// Creates an empty table.
    pub fn new() -> (table: Self)
        ensures
            table.well_formed(),
            table@.slots.len() == 0,
            table@.free.len() == 0,
    {
        ActionSlots { slots: Vec::new(), free: Vec::new() }
    }

    /// Stores an action, reusing the most recently freed slot if there is one,
    /// and returns its handle.
    pub fn add(&mut self, action: A) -> (handle: ActionHandle)
        requires
            old(self).well_formed(),
        ensures
            final(self).well_formed(),
            old(self)@.free.len() > 0 ==> {
                &&& handle.0 == old(self)@.free.last()
                &&& final(self)@.slots == old(self)@.slots.update(handle.0 as int, Some(action))
                &&& final(self)@.free == old(self)@.free.drop_last()
            },
            old(self)@.free.len() == 0 ==> {
                &&& handle.0 == old(self)@.slots.len()
                &&& final(self)@.slots == old(self)@.slots.push(Some(action))
                &&& final(self)@.free == old(self)@.free
            },
    {
        let ghost old_free = self.free@;
        match self.free.pop() {
            Some(slot) => {
                self.slots.set(slot, Some(action));
                let ghost new_free = self.free@;
                let ghost cur = self.slots@;
                proof {
                    assert(new_free =~= old_free.drop_last());
                    assert forall|k: int| 0 <= k < cur.len() && #[trigger] cur[k] is None
                        implies new_free.contains(k as usize) by {
                        assert(k != slot);
                        assert(old_free.contains(k as usize));
                        let i = choose|i: int| 0 <= i < old_free.len() && old_free[i] == k as usize;
                        assert(i != old_free.len() - 1);
                        assert(new_free[i] == k as usize);
                    }
                    assert forall|i: int| 0 <= i < new_free.len() implies #[trigger] new_free[i]
                        < cur.len() && cur[new_free[i] as int] is None by {
                        assert(old_free[i] == new_free[i]);
                        assert(old_free[old_free.len() - 1] == slot);
                        assert(new_free[i] != slot);
                    }
                }
                ActionHandle(slot)
            },
            None => {
                let handle = self.slots.len();
                self.slots.push(Some(action));
                proof {
                    assert forall|k: int| 0 <= k < self.slots@.len() && #[trigger] self.slots@[k] is None
                        implies self.free@.contains(k as usize) by {
                        assert(k != handle);
                    }
                }
                ActionHandle(handle)
            },
        }
    }

    /// Removes the action behind `handle`, freeing its slot.
    pub fn remove(&mut self, handle: ActionHandle) -> (removed: Option<A>)
        requires
            old(self).well_formed(),
        ensures
            final(self).well_formed(),
            handle.0 < old(self)@.slots.len() && old(self)@.slots[handle.0 as int] is Some ==> {
                &&& removed == old(self)@.slots[handle.0 as int]
                &&& final(self)@.slots == old(self)@.slots.update(handle.0 as int, None)
                &&& final(self)@.free == old(self)@.free.push(handle.0)
            },
            !(handle.0 < old(self)@.slots.len() && old(self)@.slots[handle.0 as int] is Some) ==> {
                &&& removed is None
                &&& final(self)@.slots == old(self)@.slots
                &&& final(self)@.free == old(self)@.free
            },
    {
        let h = handle.0;
        if h >= self.slots.len() {
            return None;
        }
        if self.slots[h].is_none() {
            return None;
        }
        let ghost old_slots = self.slots@;
        let ghost old_free = self.free@;
        let removed = self.slots.remove(h);
        self.slots.insert(h, None);
        self.free.push(h);
        let ghost cur = self.slots@;
        let ghost cur_free = self.free@;
        proof {
            assert(!old_free.contains(h)) by {
                if old_free.contains(h) {
                    let i = choose|i: int| 0 <= i < old_free.len() && old_free[i] == h;
                }
            }
            assert forall|i: int| 0 <= i < cur_free.len() implies #[trigger] cur_free[i] < cur.len()
                && cur[cur_free[i] as int] is None by {
                if i < old_free.len() {
                    assert(cur_free[i] == old_free[i]);
                }
            }
            assert forall|i: int, j: int| 0 <= i < j < cur_free.len() implies cur_free[i] != cur_free[j] by {
                if j == old_free.len() {
                    assert(cur_free[i] == old_free[i]);
                }
            }
            assert forall|k: int| 0 <= k < cur.len() && #[trigger] cur[k] is None implies cur_free.contains(
                k as usize,
            ) by {
                if k == h {
                    assert(cur_free[old_free.len() as int] == h);
                } else {
                    assert(old_slots[k] is None);
                    let i = choose|i: int| 0 <= i < old_free.len() && old_free[i] == k as usize;
                    assert(cur_free[i] == k as usize);
                }
            }
        }
        removed
    }

    /// Borrows the action behind `handle`.
    pub fn get(&self, handle: ActionHandle) -> (action: Option<&A>)
        ensures
            handle.0 < self@.slots.len() ==> action == match self@.slots[handle.0 as int] {
                Some(a) => Some(&a),
                None => None::<&A>,
            },
            handle.0 >= self@.slots.len() ==> action is None,
    {
        if handle.0 < self.slots.len() {
            match &self.slots[handle.0] {
                Some(a) => Some(a),
                None => None,
            }
        } else {
            None
        }
    }

    /// Mutably borrows the action behind `handle`.
    pub fn get_mut(&mut self, handle: ActionHandle) -> (action: Option<&mut A>)
        requires
            old(self).well_formed(),
        ensures
            final(self).well_formed(),
            handle.0 < old(self)@.slots.len() && old(self)@.slots[handle.0 as int] is Some ==> {
                &&& action is Some
                &&& *action->0 == old(self)@.slots[handle.0 as int]->0
                &&& final(self)@.slots == old(self)@.slots.update(
                    handle.0 as int,
                    Some(*final(action->0)),
                )
                &&& final(self)@.free == old(self)@.free
            },
            !(handle.0 < old(self)@.slots.len() && old(self)@.slots[handle.0 as int] is Some) ==> {
                &&& action is None
                &&& final(self)@.slots == old(self)@.slots
                &&& final(self)@.free == old(self)@.free
            },
    {
        if handle.0 < self.slots.len() {
            match &mut self.slots[handle.0] {
                Some(a) => Some(a),
                None => None,
            }
        } else {
            None
        }
    }

    /// Number of slots, free or taken.
    pub fn slot_count(&self) -> (n: usize)
        ensures
            n == self@.slots.len(),
    {
        self.slots.len()
    }

    /// Number of live actions (free slots excluded).
    pub fn count(&self) -> (n: usize)
        ensures
            n == live_count(self@.slots),
    {
        let mut n: usize = 0;
        let mut i: usize = 0;
        while i < self.slots.len()
            invariant
                i <= self.slots@.len(),
                n == live_count(self.slots@.take(i as int)),
                n <= i,
            decreases self.slots@.len() - i,
        {
            proof {
                assert(self.slots@.take(i as int + 1).drop_last() =~= self.slots@.take(i as int));
            }
            if self.slots[i].is_some() {
                n = n + 1;
            }
            i = i + 1;
        }
        proof {
            assert(self.slots@.take(self.slots@.len() as int) =~= self.slots@);
        }
        n
    }
}

/// Replacing one slot changes the live count by the change in that slot.
proof fn lemma_live_count_update<A>(s: Seq<Option<A>>, k: int, v: Option<A>)
    requires
        0 <= k < s.len(),
    ensures
        live_count(s.update(k, v)) + (if s[k] is Some {
            1int
        } else {
            0int
        }) == live_count(s) + (if v is Some {
            1int
        } else {
            0int
        }),
    decreases s.len(),
{
    if k == s.len() - 1 {
        assert(s.update(k, v).drop_last() =~= s.drop_last());
    } else {
        lemma_live_count_update(s.drop_last(), k, v);
        assert(s.update(k, v).drop_last() =~= s.drop_last().update(k, v));
    }
}

/// The handle returned by `add` names the added action, every other slot is
/// left as it was, and the live count grows by one.
pub proof fn lemma_add_gives_stable_handle<A>(
    before: ActionSlots<A>,
    after: ActionSlots<A>,
    handle: ActionHandle,
    action: A,
)
    requires
        slots_valid(before@),
        before@.free.len() > 0 ==> {
            &&& handle.0 == before@.free.last()
            &&& after@.slots == before@.slots.update(handle.0 as int, Some(action))
        },
        before@.free.len() == 0 ==> {
            &&& handle.0 == before@.slots.len()
            &&& after@.slots == before@.slots.push(Some(action))
        },
    ensures
        handle.0 < after@.slots.len(),
        after@.slots[handle.0 as int] == Some(action),
        forall|k: int|
            0 <= k < before@.slots.len() && k != handle.0 ==> #[trigger] after@.slots[k]
                == before@.slots[k],
        live_count(after@.slots) == live_count(before@.slots) + 1,
{
    if before@.free.len() > 0 {
        let last = before@.free.len() - 1;
        assert(before@.free[last] < before@.slots.len());
        assert(before@.slots[before@.free[last] as int] is None);
        lemma_live_count_update(before@.slots, handle.0 as int, Some(action));
    } else {
        assert(before@.slots.push(Some(action)).drop_last() =~= before@.slots);
    }
}

/// Removing an action through its handle returns it, frees only its slot,
/// and shrinks the live count by one; the freed slot is the next one `add`
/// reuses.
pub proof fn lemma_remove_frees_slot<A>(
    before: ActionSlots<A>,
    after: ActionSlots<A>,
    handle: ActionHandle,
    removed: Option<A>,
)
    requires
        handle.0 < before@.slots.len(),
        before@.slots[handle.0 as int] is Some,
        removed == before@.slots[handle.0 as int],
        after@.slots == before@.slots.update(handle.0 as int, None),
        after@.free == before@.free.push(handle.0),
    ensures
        removed is Some,
        after@.slots[handle.0 as int] is None,
        after@.free.last() == handle.0,
        forall|k: int|
            0 <= k < before@.slots.len() && k != handle.0 ==> #[trigger] after@.slots[k]
                == before@.slots[k],
        live_count(after@.slots) + 1 == live_count(before@.slots),
{
    lemma_live_count_update(before@.slots, handle.0 as int, None);
}

} // verus!
