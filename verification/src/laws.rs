use vstd::prelude::*;

use crate::engine::{
    date_prompt, duration_prompt, next_state, reply_text, reprompt_for, start_time_prompt,
    summary_text, task_name_prompt,
};
use crate::state::State;
use crate::store::state_of;

verus! {

/// A conversation identifier that has never been recorded is in `Start`.
pub proof fn lemma_unseen_is_start(m: Map<i64, State>, id: i64)
    requires
        !m.contains_key(id),
    ensures
        state_of(m, id) == State::Start,
{
}

/// Absent text is handled idempotently: every waiting state — all but
/// `Start`, which advances on any inbound message, text or no text — is
/// left unchanged and replies with its own corrective re-prompt.
pub proof fn lemma_absent_text_self_loop(s: State)
    requires
        !(s is Start),
    ensures
        next_state(s, None::<String>) == s,
        reply_text(s, None::<String>) == reprompt_for(s),
{
}

/// Present text `t` advances every state but `AddTaskName` to its
/// successor, with the newly collected field set to `t`, and replies
/// with the prompt for the field the successor waits for. (`Start`
/// advances too, but discards `t`: `ChooseDate` collects no field.)
pub proof fn lemma_present_text_advances(s: State, t: String)
    requires
        !(s is AddTaskName),
    ensures
        s is Start ==> next_state(s, Some(t)) == State::ChooseDate && reply_text(s, Some(t))
            == date_prompt(),
        s is ChooseDate ==> next_state(s, Some(t)) == (State::ChooseStartTime { date: t })
            && reply_text(s, Some(t)) == start_time_prompt(),
        s matches State::ChooseStartTime { date } ==> next_state(s, Some(t))
            == (State::ChooseDuration { date, start_time: t }) && reply_text(s, Some(t))
            == duration_prompt(),
        s matches State::ChooseDuration { date, start_time } ==> next_state(s, Some(t))
            == (State::AddTaskName { date, start_time, duration: t }) && reply_text(s, Some(t))
            == task_name_prompt(),
{
}

/// Chain completion: from `Start`, one opening message (whose content is
/// discarded) followed by the four text inputs `t1`, `t2`, `t3`, `t4`
/// completes the chain. The final reply is the summary naming exactly
/// `t1` as date, `t2` as start time, `t3` as duration and `t4` as task
/// name, and the conversation is back in `Start`.
pub proof fn lemma_chain_completion(
    opening: Option<String>,
    t1: String,
    t2: String,
    t3: String,
    t4: String,
)
    ensures
        ({
            let s1 = next_state(State::Start, opening);
            let s2 = next_state(s1, Some(t1));
            let s3 = next_state(s2, Some(t2));
            let s4 = next_state(s3, Some(t3));
            &&& next_state(s4, Some(t4)) == State::Start
            &&& reply_text(s4, Some(t4)) == summary_text(t1@, t2@, t3@, t4@)
        }),
{
}

/// Round trip: a second chain run immediately after a completed one
/// produces a summary built from the second chain's inputs alone —
/// nothing of the first chain's values leaks into it — and ends in
/// `Start` once more.
pub proof fn lemma_chain_round_trip(
    opening_a: Option<String>,
    a1: String,
    a2: String,
    a3: String,
    a4: String,
    opening_b: Option<String>,
    b1: String,
    b2: String,
    b3: String,
    b4: String,
)
    ensures
        ({
            let s1 = next_state(State::Start, opening_a);
            let s2 = next_state(s1, Some(a1));
            let s3 = next_state(s2, Some(a2));
            let s4 = next_state(s3, Some(a3));
            let s5 = next_state(s4, Some(a4));
            let u1 = next_state(s5, opening_b);
            let u2 = next_state(u1, Some(b1));
            let u3 = next_state(u2, Some(b2));
            let u4 = next_state(u3, Some(b3));
            &&& s5 == State::Start
            &&& reply_text(s4, Some(a4)) == summary_text(a1@, a2@, a3@, a4@)
            &&& next_state(u4, Some(b4)) == State::Start
            &&& reply_text(u4, Some(b4)) == summary_text(b1@, b2@, b3@, b4@)
        }),
{
}

} // verus!
