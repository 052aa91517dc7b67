use vstd::prelude::*;

verus! {

/// How far a conversation has progressed through the fixed prompt
/// chain, together with the fields collected so far. The chain is
/// linear: each variant carries exactly the fields gathered by the
/// states that precede it.
#[derive(Clone, Debug, PartialEq, Eq)]
pub enum State {
    /// Initial state of a never-seen or just-reset conversation.
    Start,
    /// Waiting for the task's date.
    ChooseDate,
    /// Waiting for the start time; the date has been collected.
    ChooseStartTime { date: String },
    /// Waiting for the duration; date and start time have been collected.
    ChooseDuration { date: String, start_time: String },
    /// Waiting for the task name; all other fields have been collected.
    AddTaskName { date: String, start_time: String, duration: String },
}

impl Default for State {
    /// A conversation that has never been seen starts in `Start`.
    fn default() -> (r: Self)
        ensures
            r == State::Start,
    {
        State::Start
    }
}

} // verus!
