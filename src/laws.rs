use vstd::prelude::*;

use crate::action::{moves_profile, Action};
use crate::stage::{
    first_stage, next_stage, run_from, system_plan, trace, Event, Failure, Outcome, Plan, Stage,
    Transport,
};

verus! {

/// Whether performing `s` under `plan` moves the profile to the new path.
pub open spec fn profile_step(plan: Plan, s: Stage) -> bool {
    s == Stage::SetProfile || (s == Stage::Fetch && plan.set_profile)
}

/// The position of a stage in the fixed order of a run.
pub open spec fn rank(s: Stage) -> nat {
    match s {
        Stage::Sign => 0,
        Stage::Copy => 1,
        Stage::SetProfile => 2,
        Stage::StartServer => 3,
        Stage::CheckServer => 4,
        Stage::Fetch => 5,
        Stage::StopServer { .. } => 6,
        Stage::Activate => 7,
        Stage::Reboot => 8,
        Stage::Finished(_) => 9,
    }
}

/// A run visits one stage more than it sees events, starting from `s`, and
/// each stage follows from the one before and the event that it brought.
pub proof fn lemma_run_shape(plan: Plan, s: Stage, events: Seq<Event>)
    ensures
        run_from(plan, s, events).len() == events.len() + 1,
        run_from(plan, s, events)[0] == s,
        forall|i: int|
            0 < i <= events.len() ==> #[trigger] run_from(plan, s, events)[i] == next_stage(
                plan,
                run_from(plan, s, events)[i - 1],
                events[i - 1],
            ),
    decreases events.len(),
{
    reveal(run_from);
    if events.len() > 0 {
        let n = next_stage(plan, s, events[0]);
        let rest = events.drop_first();
        lemma_run_shape(plan, n, rest);
        let r = run_from(plan, s, events);
        assert forall|i: int| 0 < i <= events.len() implies #[trigger] r[i] == next_stage(
            plan,
            r[i - 1],
            events[i - 1],
        ) by {
            assert(r[i] == run_from(plan, n, rest)[i - 1]);
            if i > 1 {
                assert(r[i - 1] == run_from(plan, n, rest)[i - 2]);
                assert(events[i - 1] == rest[i - 2]);
            }
        }
    }
}

/// The length and the first stage of a whole run.
pub proof fn lemma_trace_start(plan: Plan, events: Seq<Event>)
    ensures
        trace(plan, events).len() == events.len() + 1,
        trace(plan, events)[0] == first_stage(plan),
{
    lemma_run_shape(plan, first_stage(plan), events);
}

/// The stage at position `i` of a whole run follows from the one before.
pub proof fn lemma_trace_step(plan: Plan, events: Seq<Event>, i: int)
    requires
        0 < i <= events.len(),
    ensures
        trace(plan, events).len() == events.len() + 1,
        trace(plan, events)[i] == next_stage(plan, trace(plan, events)[i - 1], events[i - 1]),
{
    lemma_run_shape(plan, first_stage(plan), events);
}

/// Every step moves a run forward in the order of stages, until it finishes;
/// a finished run stays as it is.
pub proof fn lemma_step_rank(plan: Plan, s: Stage, e: Event)
    ensures
        s is Finished ==> next_stage(plan, s, e) == s,
        !(s is Finished) ==> rank(s) < rank(next_stage(plan, s, e)),
{
}

/// Stages come in their fixed order and never go back: signing before the
/// transport, the transport before activation, activation before reboot;
/// once a run has finished it stays finished.
pub proof fn law_stages_in_order(plan: Plan, events: Seq<Event>, i: int, j: int)
    requires
        0 <= i <= j <= events.len(),
    ensures
        rank(trace(plan, events)[i]) <= rank(trace(plan, events)[j]),
        i < j && !(trace(plan, events)[i] is Finished) ==> rank(trace(plan, events)[i]) < rank(
            trace(plan, events)[j],
        ),
        trace(plan, events)[i] is Finished ==> trace(plan, events)[j] == trace(plan, events)[i],
    decreases j - i,
{
    let t = trace(plan, events);
    lemma_trace_start(plan, events);
    if i < j {
        law_stages_in_order(plan, events, i, j - 1);
        lemma_trace_step(plan, events, j);
        lemma_step_rank(plan, t[j - 1], events[j - 1]);
    }
}

/// In a system deployment whose action moves the profile, every activation
/// is preceded by a step that moved the profile and succeeded.
pub proof fn law_profile_set_before_activation(
    transport: Transport,
    signed: bool,
    check_server: bool,
    action: Action,
    events: Seq<Event>,
)
    requires
        moves_profile(action),
    ensures
        forall|i: int|
            0 <= i < trace(system_plan(transport, signed, check_server, action), events).len() && #[trigger] trace(
                system_plan(transport, signed, check_server, action),
                events,
            )[i] == Stage::Activate ==> exists|j: int|
                0 <= j < i && events[j] == Event::Succeeded && profile_step(
                    system_plan(transport, signed, check_server, action),
                    #[trigger] trace(system_plan(transport, signed, check_server, action), events)[j],
                ),
{
    let plan = system_plan(transport, signed, check_server, action);
    let t = trace(plan, events);
    lemma_trace_start(plan, events);
    assert forall|i: int| 0 <= i < t.len() && #[trigger] t[i] == Stage::Activate implies exists|j: int|
        0 <= j < i && events[j] == Event::Succeeded && profile_step(plan, #[trigger] t[j]) by {
        assert(i > 0);
        lemma_trace_step(plan, events, i);
        if t[i - 1] == Stage::SetProfile {
            assert(profile_step(plan, t[i - 1]));
        } else {
            assert(t[i - 1] == Stage::StopServer { fetch_ok: true });
            assert(i - 1 > 0);
            lemma_trace_step(plan, events, i - 1);
            assert(t[i - 2] == Stage::Fetch);
            assert(profile_step(plan, t[i - 2]));
        }
    }
}

/// In a system deployment whose action leaves the profile alone, no step of
/// the run moves the profile.
pub proof fn law_no_profile_set_without_move(
    transport: Transport,
    signed: bool,
    check_server: bool,
    action: Action,
    events: Seq<Event>,
)
    requires
        !moves_profile(action),
    ensures
        forall|i: int|
            0 <= i < trace(system_plan(transport, signed, check_server, action), events).len() ==> !profile_step(
                system_plan(transport, signed, check_server, action),
                #[trigger] trace(system_plan(transport, signed, check_server, action), events)[i],
            ),
{
    let plan = system_plan(transport, signed, check_server, action);
    let t = trace(plan, events);
    lemma_trace_start(plan, events);
    assert forall|i: int| 0 <= i < t.len() implies !profile_step(plan, #[trigger] t[i]) by {
        if i > 0 {
            lemma_trace_step(plan, events, i);
        }
    }
}

/// Once the local server has exited within the liveness window, the run is
/// over: every later stage is the failure, so no remote command and no
/// termination request follow.
pub proof fn law_early_exit_ends_run(plan: Plan, events: Seq<Event>, i: int)
    requires
        0 <= i < events.len(),
        trace(plan, events)[i] == Stage::CheckServer,
        events[i] == Event::Exited,
    ensures
        forall|k: int|
            i < k < trace(plan, events).len() ==> #[trigger] trace(plan, events)[k] == Stage::Finished(
                Outcome::Failed(Failure::PrematureExit),
            ),
{
    let t = trace(plan, events);
    lemma_trace_start(plan, events);
    lemma_trace_step(plan, events, i + 1);
    assert(t[i + 1] == Stage::Finished(Outcome::Failed(Failure::PrematureExit)));
    assert forall|k: int| i < k < t.len() implies #[trigger] t[k] == Stage::Finished(
        Outcome::Failed(Failure::PrematureExit),
    ) by {
        law_stages_in_order(plan, events, i + 1, k);
    }
}

/// With a local server, the remote fetch is followed at once by the request
/// to terminate the server, whatever the fetch reported.
pub proof fn law_fetch_then_stop(plan: Plan, events: Seq<Event>)
    requires
        plan.transport == Transport::SubstituteServe,
    ensures
        forall|i: int|
            0 <= i < events.len() && #[trigger] trace(plan, events)[i] == Stage::Fetch ==> trace(
                plan,
                events,
            )[i + 1] == (Stage::StopServer { fetch_ok: events[i] == Event::Succeeded }),
{
    let t = trace(plan, events);
    assert forall|i: int| 0 <= i < events.len() && #[trigger] t[i] == Stage::Fetch implies t[i + 1]
        == (Stage::StopServer { fetch_ok: events[i] == Event::Succeeded }) by {
        lemma_trace_step(plan, events, i + 1);
    }
}

/// No run asks the local server to terminate twice.
pub proof fn law_stop_at_most_once(plan: Plan, events: Seq<Event>, i: int, j: int)
    requires
        0 <= i < trace(plan, events).len(),
        0 <= j < trace(plan, events).len(),
        trace(plan, events)[i] is StopServer,
        trace(plan, events)[j] is StopServer,
    ensures
        i == j,
{
    lemma_trace_start(plan, events);
    if i < j {
        law_stages_in_order(plan, events, i, j);
    } else if j < i {
        law_stages_in_order(plan, events, j, i);
    }
}


/// Where the plan asks for signing, the closure is copied only after it was
/// signed successfully.
pub proof fn law_copy_after_signing(plan: Plan, events: Seq<Event>, i: int)
    requires
        plan.sign,
        plan.transport == Transport::DirectCopy,
        0 <= i < trace(plan, events).len(),
        trace(plan, events)[i] == Stage::Copy,
    ensures
        i > 0,
        trace(plan, events)[i - 1] == Stage::Sign,
        events[i - 1] == Event::Succeeded,
{
    lemma_trace_start(plan, events);
    if i > 0 {
        lemma_trace_step(plan, events, i);
    }
}

} // verus!
