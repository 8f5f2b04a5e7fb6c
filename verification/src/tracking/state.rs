use vstd::prelude::*;

verus! {

/// Whether the stamp `(time, event_id)` lies strictly after the stamp `(last_time, last_event_id)`.
///
/// Stamps are ordered by time first and by event id second.
pub open spec fn stamp_after(time: u64, event_id: u64, last_time: u64, last_event_id: u64) -> bool {
    time > last_time || (time == last_time && event_id > last_event_id)
}

/// Struct representing a tracked state with the stamp of its last update.
#[derive(Debug, Clone, Copy)]
pub struct TrackedState<T> {
    /// Current state.
    pub state: T,
    /// Timestamp of the last update.
    pub time: u64,
    /// Event id of the last update.
    pub event_id: u64,
}

impl<T> TrackedState<T> {
    /// The tracked state after an update with `state` at the stamp `(time, event_id)`.
    pub open spec fn after_update(self, state: T, time: u64, event_id: u64) -> Self {
        if stamp_after(time, event_id, self.time, self.event_id) {
            TrackedState { state, time, event_id }
        } else {
            self
        }
    }

    /// Creates a new tracked state.
    pub fn new(state: T) -> (r: Self)
        ensures
            r.state == state,
            r.time == 0,
            r.event_id == 0,
    {
        Self { state, time: 0, event_id: 0 }
    }

    /// Updates the state.
    ///
    /// Returns `false` if this update was ignored due to out of order.
    pub fn update(&mut self, state: T, time: u64, event_id: u64) -> (changed: bool)
        ensures
            changed == stamp_after(time, event_id, old(self).time, old(self).event_id),
            *final(self) == old(self).after_update(state, time, event_id),
    {
        if time > self.time || (time == self.time && event_id > self.event_id) {
            self.state = state;
            self.time = time;
            self.event_id = event_id;
            true
        } else {
            false
        }
    }
}

impl<T: Default> Default for TrackedState<T> {
    fn default() -> (r: Self)
        ensures
            r.time == 0,
            r.event_id == 0,
            call_ensures(T::default, (), r.state),
    {
        Self::new(T::default())
    }
}

/// Possible buff states of a tracked state.
#[derive(Debug, Clone, Copy)]
pub enum BuffState<T> {
    /// Buff state is not set (yet).
    ///
    /// This is the initial value.
    Unknown,
    /// No buff is applied.
    Empty,
    /// Some buff is applied.
    Applied(T),
}

impl<T> Default for BuffState<T> {
    fn default() -> (r: Self)
        ensures
            r is Unknown,
    {
        BuffState::Unknown
    }
}

/// A tracked state never moves back to an earlier stamp.
///
/// After any update the stamp of the state is the same as before or strictly after it.
pub proof fn law_tracked_state_stamp_monotone<T>(before: TrackedState<T>, state: T, time: u64, event_id: u64)
    ensures
        ({
            let after = before.after_update(state, time, event_id);
            after == before || stamp_after(after.time, after.event_id, before.time, before.event_id)
        }),
{
}

/// An update that was accepted is never accepted a second time.
///
/// Replaying the same update leaves the state unchanged.
pub proof fn law_tracked_state_replay_ignored<T>(before: TrackedState<T>, state: T, time: u64, event_id: u64)
    ensures
        ({
            let after = before.after_update(state, time, event_id);
            after.after_update(state, time, event_id) == after
        }),
{
}

} // verus!
