use vstd::prelude::*;

use crate::state::State;
use std::collections::HashMap;

verus! {

broadcast use vstd::std_specs::hash::group_hash_axioms;

/// The state recorded for `id` in the model map `m`: a conversation
/// identifier that was never recorded is in `Start`.
pub open spec fn state_of(m: Map<i64, State>, id: i64) -> State {
    if m.contains_key(id) {
        m[id]
    } else {
        State::Start
    }
}

/// Keyed storage holding each conversation's current dialogue state.
/// Its model is the map from conversation identifier to recorded state;
/// identifiers absent from the map are in `Start` (see [`state_of`]).
pub struct SessionStore {
    map: HashMap<i64, State>,
}

impl View for SessionStore {
    type V = Map<i64, State>;

    closed spec fn view(&self) -> Map<i64, State> {
        self.map@
    }
}

/// An owned copy of a state, equal to the original.
fn duplicate(s: &State) -> (r: State)
    ensures
        r == *s,
{
    match s {
        State::Start => State::Start,
        State::ChooseDate => State::ChooseDate,
        State::ChooseStartTime { date } => State::ChooseStartTime { date: date.clone() },
        State::ChooseDuration { date, start_time } => State::ChooseDuration {
            date: date.clone(),
            start_time: start_time.clone(),
        },
        State::AddTaskName { date, start_time, duration } => State::AddTaskName {
            date: date.clone(),
            start_time: start_time.clone(),
            duration: duration.clone(),
        },
    }
}

impl SessionStore {
    /// An empty store: no conversation has been recorded, so every
    /// conversation is in `Start`.
    pub fn new() -> (r: Self)
        ensures
            r@ == Map::<i64, State>::empty(),
    {
        SessionStore { map: HashMap::new() }
    }

    /// The stored state for `id`, or `Start` if `id` has never been
    /// recorded. Never fails.
    pub fn get(&self, id: i64) -> (r: State)
        ensures
            r == state_of(self@, id),
    {
        match self.map.get(&id) {
            Some(s) => duplicate(s),
            None => State::Start,
        }
    }

    /// Replaces (or inserts) the stored state for `id`.
    pub fn set(&mut self, id: i64, s: State)
        ensures
            final(self)@ == old(self)@.insert(id, s),
    {
        self.map.insert(id, s);
    }

    /// Resets the conversation `id` to `Start`; equivalent to
    /// `set(id, Start)`. Used when a chain completes.
    pub fn clear(&mut self, id: i64)
        ensures
            final(self)@ == old(self)@.insert(id, State::Start),
    {
        self.set(id, State::Start);
    }
}

} // verus!
