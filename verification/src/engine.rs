use vstd::prelude::*;

use crate::state::State;
use crate::store::{state_of, SessionStore};

verus! {

/// Prompt sent when a conversation is opened: ask for the date.
pub open spec fn date_prompt() -> Seq<char> {
    "Enter the date (YYYY-MM-DD):"@
}

/// Prompt sent once the date has been accepted: ask for the start time.
pub open spec fn start_time_prompt() -> Seq<char> {
    "Choose the start time (HH:mm):"@
}

/// Prompt sent once the start time has been accepted: ask for the duration.
pub open spec fn duration_prompt() -> Seq<char> {
    "Choose the duration:"@
}

/// Prompt sent once the duration has been accepted: ask for the task name.
pub open spec fn task_name_prompt() -> Seq<char> {
    "Enter the task name:"@
}

/// Corrective re-prompt sent when no text arrives while a date is awaited.
pub open spec fn date_reprompt() -> Seq<char> {
    "Send me the date in the correct format."@
}

/// Corrective re-prompt sent when no text arrives while a start time is awaited.
pub open spec fn start_time_reprompt() -> Seq<char> {
    "Send me the start time in the correct format."@
}

/// Corrective re-prompt sent when no text arrives while a duration is awaited.
pub open spec fn duration_reprompt() -> Seq<char> {
    "Send me the duration in the correct format."@
}

/// Corrective re-prompt sent when no text arrives while a task name is awaited.
pub open spec fn task_name_reprompt() -> Seq<char> {
    "Send me the task name in plain text."@
}

/// The corrective re-prompt belonging to a waiting state. `Start` waits
/// for nothing — any message advances it — so it has no re-prompt and is
/// mapped to the empty sequence here.
pub open spec fn reprompt_for(s: State) -> Seq<char>
    recommends
        !(s is Start),
{
    match s {
        State::Start => Seq::<char>::empty(),
        State::ChooseDate => date_reprompt(),
        State::ChooseStartTime { .. } => start_time_reprompt(),
        State::ChooseDuration { .. } => duration_reprompt(),
        State::AddTaskName { .. } => task_name_reprompt(),
    }
}

/// The summary sent when a chain completes: the four collected fields,
/// each on its own labelled line.
pub open spec fn summary_text(
    date: Seq<char>,
    start_time: Seq<char>,
    duration: Seq<char>,
    task_name: Seq<char>,
) -> Seq<char> {
    "Task added:\nDate: "@ + date + "\nStart time: "@ + start_time + "\nDuration: "@ + duration
        + "\nTask name: "@ + task_name
}

/// The state a conversation moves to when `text` arrives while it is in
/// state `s`. `Start` advances on any message, its content discarded;
/// every other state advances only on present text, storing that text in
/// the newly collected field, and is left unchanged on absent text.
/// Completing the chain resets the conversation to `Start`.
pub open spec fn next_state(s: State, text: Option<String>) -> State {
    match s {
        State::Start => State::ChooseDate,
        State::ChooseDate => match text {
            Some(t) => State::ChooseStartTime { date: t },
            None => State::ChooseDate,
        },
        State::ChooseStartTime { date } => match text {
            Some(t) => State::ChooseDuration { date, start_time: t },
            None => State::ChooseStartTime { date },
        },
        State::ChooseDuration { date, start_time } => match text {
            Some(t) => State::AddTaskName { date, start_time, duration: t },
            None => State::ChooseDuration { date, start_time },
        },
        State::AddTaskName { date, start_time, duration } => match text {
            Some(_) => State::Start,
            None => State::AddTaskName { date, start_time, duration },
        },
    }
}

/// The reply sent back when `text` arrives while a conversation is in
/// state `s`: the prompt for the next field on an advance, the state's
/// corrective re-prompt on absent text, and the task summary when the
/// chain completes.
pub open spec fn reply_text(s: State, text: Option<String>) -> Seq<char> {
    match s {
        State::Start => date_prompt(),
        State::ChooseDate => match text {
            Some(_) => start_time_prompt(),
            None => date_reprompt(),
        },
        State::ChooseStartTime { date } => match text {
            Some(_) => duration_prompt(),
            None => start_time_reprompt(),
        },
        State::ChooseDuration { date, start_time } => match text {
            Some(_) => task_name_prompt(),
            None => duration_reprompt(),
        },
        State::AddTaskName { date, start_time, duration } => match text {
            Some(t) => summary_text(date@, start_time@, duration@, t@),
            None => task_name_reprompt(),
        },
    }
}

/// Handler for `Start`: any inbound message opens the chain. The
/// message's content is discarded; the conversation moves to
/// `ChooseDate` and is asked for the date.
pub fn start() -> (r: (State, String))
    ensures
        r.0 == State::ChooseDate,
        r.1@ == date_prompt(),
{
    (State::ChooseDate, String::from_str("Enter the date (YYYY-MM-DD):"))
}

/// Handler for `ChooseDate`: present text is accepted verbatim as the
/// date and the start time is asked for; absent text re-prompts and
/// leaves the state unchanged.
pub fn choose_date(text: Option<String>) -> (r: (State, String))
    ensures
        r.0 == next_state(State::ChooseDate, text),
        r.1@ == reply_text(State::ChooseDate, text),
{
    match text {
        Some(date) => (
            State::ChooseStartTime { date },
            String::from_str("Choose the start time (HH:mm):"),
        ),
        None => (State::ChooseDate, String::from_str("Send me the date in the correct format.")),
    }
}

/// Handler for `ChooseStartTime`: present text is accepted verbatim as
/// the start time and the duration is asked for; absent text re-prompts
/// and leaves the state unchanged.
pub fn choose_start_time(date: String, text: Option<String>) -> (r: (State, String))
    ensures
        r.0 == next_state(State::ChooseStartTime { date }, text),
        r.1@ == reply_text(State::ChooseStartTime { date }, text),
{
    match text {
        Some(start_time) => (
            State::ChooseDuration { date, start_time },
            String::from_str("Choose the duration:"),
        ),
        None => (
            State::ChooseStartTime { date },
            String::from_str("Send me the start time in the correct format."),
        ),
    }
}

/// Handler for `ChooseDuration`: present text is accepted verbatim as
/// the duration and the task name is asked for; absent text re-prompts
/// and leaves the state unchanged.
pub fn choose_duration(date: String, start_time: String, text: Option<String>) -> (r: (
    State,
    String,
))
    ensures
        r.0 == next_state(State::ChooseDuration { date, start_time }, text),
        r.1@ == reply_text(State::ChooseDuration { date, start_time }, text),
{
    match text {
        Some(duration) => (
            State::AddTaskName { date, start_time, duration },
            String::from_str("Enter the task name:"),
        ),
        None => (
            State::ChooseDuration { date, start_time },
            String::from_str("Send me the duration in the correct format."),
        ),
    }
}

/// Handler for `AddTaskName`: present text completes the chain — the
/// summary of all four collected fields is sent and the conversation is
/// reset to `Start`; absent text re-prompts and leaves the state
/// unchanged.
pub fn add_task_name(
    date: String,
    start_time: String,
    duration: String,
    text: Option<String>,
) -> (r: (State, String))
    ensures
        r.0 == next_state(State::AddTaskName { date, start_time, duration }, text),
        r.1@ == reply_text(State::AddTaskName { date, start_time, duration }, text),
{
    match text {
        Some(task_name) => {
            let mut reply = String::from_str("Task added:\nDate: ");
            reply.append(date.as_str());
            reply.append("\nStart time: ");
            reply.append(start_time.as_str());
            reply.append("\nDuration: ");
            reply.append(duration.as_str());
            reply.append("\nTask name: ");
            reply.append(task_name.as_str());
            proof {
                assert(reply@ =~= summary_text(date@, start_time@, duration@, task_name@));
            }
            (State::Start, reply)
        },
        None => (
            State::AddTaskName { date, start_time, duration },
            String::from_str("Send me the task name in plain text."),
        ),
    }
}

/// One application of the transition function: dispatches on the current
/// state to that state's handler and returns the next state together
/// with the reply to send.
pub fn transition(s: State, text: Option<String>) -> (r: (State, String))
    ensures
        r.0 == next_state(s, text),
        r.1@ == reply_text(s, text),
{
    match s {
        State::Start => start(),
        State::ChooseDate => choose_date(text),
        State::ChooseStartTime { date } => choose_start_time(date, text),
        State::ChooseDuration { date, start_time } => choose_duration(date, start_time, text),
        State::AddTaskName { date, start_time, duration } => add_task_name(
            date,
            start_time,
            duration,
            text,
        ),
    }
}

/// One full engine step: reads the conversation's state from the store,
/// applies the transition for the inbound `text`, commits the next
/// state, and returns the reply to send. The store changes only at
/// `id`. Committing happens before the caller sends the reply; a caller
/// that must not commit on a failed send uses `SessionStore::get`,
/// [`transition`] and `SessionStore::set` separately, in that order.
pub fn handle_message(store: &mut SessionStore, id: i64, text: Option<String>) -> (reply: String)
    ensures
        final(store)@ == old(store)@.insert(id, next_state(state_of(old(store)@, id), text)),
        reply@ == reply_text(state_of(old(store)@, id), text),
{
    let s = store.get(id);
    let (next, reply) = transition(s, text);
    store.set(id, next);
    reply
}

} // verus!
