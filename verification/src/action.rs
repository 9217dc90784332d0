//! Action lifecycle and blend types, and the pending-marker queue an action
//! keeps for the clip it plays.

use vstd::prelude::*;

verus! {

/// How an action's sampled values combine with other actions on the same binding.
#[derive(Clone, Copy, Debug, PartialEq, Eq, Structural)]
pub enum BlendMode {
    /// Weighted-average blend (override). The default.
    Normal,
    /// Additive blend: `result += (sample - reference) * weight`.
    Additive,
}

impl Default for BlendMode {
    fn default() -> (mode: Self)
        ensures
            mode == BlendMode::Normal,
    {
        BlendMode::Normal
    }
}

/// Action lifecycle state.
#[derive(Clone, Copy, Debug, PartialEq, Eq, Structural)]
pub enum ActionState {
    /// Created but not yet started.
    Stopped,
    /// Advancing each tick.
    Playing,
    /// Paused; holds its local time.
    Paused,
    /// Completed (Once exhausted or max iterations reached).
    Finished,
}

impl Default for ActionState {
    fn default() -> (state: Self)
        ensures
            state == ActionState::Stopped,
    {
        ActionState::Stopped
    }
}

impl ActionState {
    /// The state after a pause request: a playing action pauses, any other
    /// state is kept.
    pub open spec fn after_pause(self) -> ActionState {
        if self == ActionState::Playing {
            ActionState::Paused
        } else {
            self
        }
    }

    /// The state after a resume request: a paused action plays again, any
    /// other state is kept.
    pub open spec fn after_resume(self) -> ActionState {
        if self == ActionState::Paused {
            ActionState::Playing
        } else {
            self
        }
    }

    /// Applies a pause request.
    pub fn paused(self) -> (state: ActionState)
        ensures
            state == self.after_pause(),
    {
        match self {
            ActionState::Playing => ActionState::Paused,
            other => other,
        }
    }

    /// Applies a resume request.
    pub fn resumed(self) -> (state: ActionState)
        ensures
            state == self.after_resume(),
    {
        match self {
            ActionState::Paused => ActionState::Playing,
            other => other,
        }
    }

    /// Returns whether an action in this state advances each tick.
    pub fn is_playing(self) -> (b: bool)
        ensures
            b == (self == ActionState::Playing),
    {
        matches!(self, ActionState::Playing)
    }

    /// Returns whether an action in this state has completed.
    pub fn is_finished(self) -> (b: bool)
        ensures
            b == (self == ActionState::Finished),
    {
        matches!(self, ActionState::Finished)
    }
}

/// Resuming undoes a pause: a playing action that is paused and resumed plays
/// again, and both requests leave stopped and finished actions alone.
pub proof fn lemma_pause_resume(state: ActionState)
    ensures
        state != ActionState::Paused ==> state.after_pause().after_resume() == state,
        state.after_pause() != ActionState::Playing,
        state.after_resume() != ActionState::Paused,
        (state == ActionState::Stopped || state == ActionState::Finished) ==> state.after_pause()
            == state && state.after_resume() == state,
{
}

/// Stable handle returned when an action is added to a mixer.
#[derive(Clone, Copy, Debug, PartialEq, Eq, Hash, Structural)]
pub struct ActionHandle(pub usize);

/// Whether marker `m` exists and its time key is at or before `time`.
pub open spec fn marker_due(marker_keys: Seq<u32>, time: u32, m: usize) -> bool {
    m < marker_keys.len() && marker_keys[m as int] <= time
}

/// The pending markers that fire at `time`: those that are due, in pending
/// order.
pub open spec fn fired_markers(pending: Seq<usize>, marker_keys: Seq<u32>, time: u32) -> Seq<usize> {
    pending.filter(|m: usize| marker_due(marker_keys, time, m))
}

/// The pending markers still waiting after `time`: those that are not due,
/// in pending order.
pub open spec fn kept_markers(pending: Seq<usize>, marker_keys: Seq<u32>, time: u32) -> Seq<usize> {
    pending.filter(|m: usize| !marker_due(marker_keys, time, m))
}

/// Resets the pending-marker list to every marker of the clip, in clip order.
pub fn reset_markers(pending: &mut Vec<usize>, marker_count: usize)
    ensures
        final(pending)@ == Seq::new(marker_count as nat, |i: int| i as usize),
{
    pending.clear();
    let mut i: usize = 0;
    while i < marker_count
        invariant
            i <= marker_count,
            pending@ == Seq::new(i as nat, |k: int| k as usize),
        decreases marker_count - i,
    {
        pending.push(i);
        i = i + 1;
        assert(pending@ =~= Seq::new(i as nat, |k: int| k as usize));
    }
}

/// Drains the pending markers whose time key is at or before `time`,
/// returning their indices in order; the markers not yet due stay pending, in
/// order.
pub fn drain_markers_until(pending: &mut Vec<usize>, time: u32, marker_keys: &[u32]) -> (fired:
    Vec<usize>)
    ensures
        fired@ == fired_markers(old(pending)@, marker_keys@, time),
        final(pending)@ == kept_markers(old(pending)@, marker_keys@, time),
{
    let mut fired: Vec<usize> = Vec::new();
    let mut kept: Vec<usize> = Vec::new();
    let mut i: usize = 0;
    while i < pending.len()
        invariant
            i <= pending@.len(),
            pending@ == old(pending)@,
            fired@ == fired_markers(pending@.take(i as int), marker_keys@, time),
            kept@ == kept_markers(pending@.take(i as int), marker_keys@, time),
        decreases pending@.len() - i,
    {
        let m = pending[i];
        proof {
            assert(pending@.take(i as int + 1).drop_last() =~= pending@.take(i as int));
            assert(pending@.take(i as int + 1).last() == m);
        }
        if m < marker_keys.len() && marker_keys[m] <= time {
            fired.push(m);
        } else {
            kept.push(m);
        }
        i = i + 1;
        proof {
            reveal(Seq::filter);
        }
    }
    proof {
        assert(pending@.take(i as int) =~= pending@);
    }
    *pending = kept;
    fired
}

/// Draining partitions the pending markers: the fired and the kept markers
/// together are as many as were pending, every fired marker was pending and
/// due, every due pending marker fires, and the kept markers are exactly the
/// pending ones that are not due.
pub proof fn lemma_drain_partitions(pending: Seq<usize>, marker_keys: Seq<u32>, time: u32)
    ensures
        ({
            let fired = fired_markers(pending, marker_keys, time);
            let kept = kept_markers(pending, marker_keys, time);
            &&& fired.len() + kept.len() == pending.len()
            &&& forall|x: usize| #[trigger]
                fired.contains(x) <==> pending.contains(x) && marker_due(marker_keys, time, x)
            &&& forall|x: usize| #[trigger]
                kept.contains(x) <==> pending.contains(x) && !marker_due(marker_keys, time, x)
        }),
    decreases pending.len(),
{
    broadcast use vstd::seq_lib::group_filter_ensures;

    let due = |m: usize| marker_due(marker_keys, time, m);
    let waiting = |m: usize| !marker_due(marker_keys, time, m);
    let fired = fired_markers(pending, marker_keys, time);
    let kept = kept_markers(pending, marker_keys, time);
    reveal(Seq::filter);
    if pending.len() > 0 {
        lemma_drain_partitions(pending.drop_last(), marker_keys, time);
    }
    assert forall|x: usize| #[trigger] fired.contains(x) <==> pending.contains(x) && marker_due(
        marker_keys,
        time,
        x,
    ) by {
        if fired.contains(x) {
            pending.lemma_filter_contains_rev(due, x);
            let k = choose|k: int| 0 <= k < fired.len() && fired[k] == x;
            assert(due(fired[k]));
        }
        if pending.contains(x) && marker_due(marker_keys, time, x) {
            let k = choose|k: int| 0 <= k < pending.len() && pending[k] == x;
            pending.lemma_filter_contains(due, k);
        }
    }
    assert forall|x: usize| #[trigger] kept.contains(x) <==> pending.contains(x) && !marker_due(
        marker_keys,
        time,
        x,
    ) by {
        if kept.contains(x) {
            pending.lemma_filter_contains_rev(waiting, x);
            let k = choose|k: int| 0 <= k < kept.len() && kept[k] == x;
            assert(waiting(kept[k]));
        }
        if pending.contains(x) && !marker_due(marker_keys, time, x) {
            let k = choose|k: int| 0 <= k < pending.len() && pending[k] == x;
            pending.lemma_filter_contains(waiting, k);
        }
    }
}

} // verus!
