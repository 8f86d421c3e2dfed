//! Whole runs: the actions that a sequence of events draws from the runner,
//! and what holds of them whatever the events are.

use vstd::prelude::*;
use crate::call::CallDescriptor;
use crate::outcome::{outcome_of, Criterion, Outcome, Response};
use crate::runner::{initial, next, Action, Event, Mode, Phase, State};

verus! {

/// The state reached from `s` after `events`, in order.
pub open spec fn run(s: State, events: Seq<Event>) -> State
    decreases events.len(),
{
    if events.len() == 0 {
        s
    } else {
        run(next(s, events[0]).0, events.skip(1))
    }
}

/// The actions asked of the driver while `events` arrive in state `s`, one
/// for each event.
pub open spec fn actions(s: State, events: Seq<Event>) -> Seq<Action>
    decreases events.len(),
{
    if events.len() == 0 {
        Seq::empty()
    } else {
        seq![next(s, events[0]).1] + actions(next(s, events[0]).0, events.skip(1))
    }
}

/// How many of `trace` ask for a deploy.
pub open spec fn deploys(trace: Seq<Action>) -> nat
    decreases trace.len(),
{
    if trace.len() == 0 {
        0
    } else if trace[0] is Deploy {
        1 + deploys(trace.skip(1))
    } else {
        deploys(trace.skip(1))
    }
}

/// The positions of the calls that `trace` asks to issue, in the order asked.
pub open spec fn issued_indexes(trace: Seq<Action>) -> Seq<int>
    decreases trace.len(),
{
    if trace.len() == 0 {
        Seq::empty()
    } else {
        match trace[0] {
            Action::Issue { index } => seq![index as int] + issued_indexes(trace.skip(1)),
            _ => issued_indexes(trace.skip(1)),
        }
    }
}

/// The positions `from`, `from + 1`, .. up to but not including `to`.
pub open spec fn positions(from: nat, to: nat) -> Seq<int> {
    Seq::new((to - from) as nat, |j: int| from + j)
}

/// Whether no deploy has been asked for on the way to `s`.
pub open spec fn before_deploy(s: State) -> bool {
    s.phase is Idle || s.phase is Provisioning || s.phase is Reading
}

/// The transition keeps a reachable state reachable.
pub proof fn lemma_next_wf(s: State, event: Event)
    requires
        s.wf(),
    ensures
        next(s, event).0.wf(),
        next(s, event).0.mode == s.mode,
        next(s, event).0.criterion == s.criterion,
        next(s, event).0.calls == s.calls,
{
}

proof fn lemma_deploys_front(first: Action, rest: Seq<Action>)
    ensures
        deploys(seq![first] + rest) == (if first is Deploy { 1nat } else { 0nat }) + deploys(rest),
{
    assert((seq![first] + rest).skip(1) =~= rest);
}

proof fn lemma_issued_front(first: Action, rest: Seq<Action>)
    ensures
        issued_indexes(seq![first] + rest) == (match first {
            Action::Issue { index } => seq![index as int] + issued_indexes(rest),
            _ => issued_indexes(rest),
        }),
{
    assert((seq![first] + rest).skip(1) =~= rest);
}

/// Deploys along any continuation of a run: at most one if none was asked
/// for yet, none otherwise; and a call is asked for only once that one
/// deploy has been. After the end nothing is asked for.
proof fn lemma_deploys(s: State, events: Seq<Event>)
    ensures
        actions(s, events).len() == events.len(),
        deploys(actions(s, events)) <= (if before_deploy(s) { 1nat } else { 0nat }),
        s.phase is Done ==> forall|i: int|
            0 <= i < events.len() ==> #[trigger] actions(s, events)[i] is Nothing,
        forall|i: int|
            0 <= i < events.len() && #[trigger] actions(s, events)[i] is Issue ==> deploys(
                actions(s, events).take(i),
            ) == (if before_deploy(s) { 1nat } else { 0nat }),
    decreases events.len(),
{
    if events.len() > 0 {
        let first = next(s, events[0]).1;
        let s1 = next(s, events[0]).0;
        let rest = actions(s1, events.skip(1));
        let trace = actions(s, events);
        lemma_deploys(s1, events.skip(1));
        lemma_deploys_front(first, rest);
        assert(trace == seq![first] + rest);
        assert forall|i: int| 0 <= i < events.len() && #[trigger] trace[i] is Issue implies deploys(
            trace.take(i),
        ) == (if before_deploy(s) { 1nat } else { 0nat }) by {
            if i == 0 {
                assert(trace.take(0) =~= Seq::<Action>::empty());
            } else {
                assert(trace[i] == rest[i - 1]);
                assert(trace.take(i) =~= seq![first] + rest.take(i - 1));
                lemma_deploys_front(first, rest.take(i - 1));
            }
        }
        if s.phase is Done {
            assert forall|i: int| 0 <= i < events.len() implies #[trigger] trace[i] is Nothing by {
                if i > 0 {
                    assert(trace[i] == rest[i - 1]);
                }
            }
        }
    }
}

/// Calls along any continuation of a run from a reachable state: their
/// positions continue where the run stood, one by one, up to where it ends.
proof fn lemma_issued(s: State, events: Seq<Event>)
    requires
        s.wf(),
    ensures
        run(s, events).wf(),
        run(s, events).mode == s.mode,
        run(s, events).criterion == s.criterion,
        run(s, events).calls == s.calls,
        s.issued() <= run(s, events).issued(),
        issued_indexes(actions(s, events)) == positions(s.issued(), run(s, events).issued()),
    decreases events.len(),
{
    if events.len() > 0 {
        let first = next(s, events[0]).1;
        let s1 = next(s, events[0]).0;
        let rest = actions(s1, events.skip(1));
        lemma_next_wf(s, events[0]);
        lemma_issued(s1, events.skip(1));
        lemma_issued_front(first, rest);
        let last = run(s, events);
        match first {
            Action::Issue { index } => {
                assert(index as int == s.issued());
                assert(s1.issued() == s.issued() + 1);
                assert(seq![index as int] + positions(s1.issued(), last.issued()) =~= positions(
                    s.issued(),
                    last.issued(),
                ));
            },
            _ => {
                assert(s1.issued() == s.issued());
            },
        }
    } else {
        assert(positions(s.issued(), s.issued()) =~= Seq::<int>::empty());
    }
}

/// Whatever happens, every state of a run keeps the runner's invariant.
pub proof fn law_invariant_holds(
    mode: Mode,
    criterion: Criterion,
    calls: Seq<CallDescriptor>,
    events: Seq<Event>,
)
    requires
        calls.len() <= usize::MAX,
    ensures
        run(initial(mode, criterion, calls), events).wf(),
{
    lemma_issued(initial(mode, criterion, calls), events);
}

/// Whatever happens, at most one deploy is asked for in a run, and every
/// call is asked for after exactly one deploy.
pub proof fn law_one_deploy_before_any_call(
    mode: Mode,
    criterion: Criterion,
    calls: Seq<CallDescriptor>,
    events: Seq<Event>,
)
    ensures
        deploys(actions(initial(mode, criterion, calls), events)) <= 1,
        forall|i: int|
            0 <= i < events.len() && #[trigger] actions(
                initial(mode, criterion, calls),
                events,
            )[i] is Issue ==> deploys(actions(initial(mode, criterion, calls), events).take(i)) == 1,
{
    lemma_deploys(initial(mode, criterion, calls), events);
}

/// Whatever happens, the calls of a run are asked for in the order of the
/// sequence, each at most once, with none left out in between: the
/// positions asked for are 0, 1, .. up to the number of calls issued.
pub proof fn law_calls_issued_in_order(
    mode: Mode,
    criterion: Criterion,
    calls: Seq<CallDescriptor>,
    events: Seq<Event>,
)
    requires
        calls.len() <= usize::MAX,
    ensures
        issued_indexes(actions(initial(mode, criterion, calls), events)) == positions(
            0,
            run(initial(mode, criterion, calls), events).issued(),
        ),
        run(initial(mode, criterion, calls), events).issued() <= calls.len(),
{
    lemma_issued(initial(mode, criterion, calls), events);
}

/// In a fail-fast run, once the outstanding call has failed, no further
/// call is asked for, whatever events follow.
pub proof fn law_fail_fast_stops(s: State, response: Response, later: Seq<Event>)
    requires
        s.mode is FailFast,
        s.phase is Calling,
        outcome_of(s.criterion, response) is Failure,
    ensures
        next(s, Event::CallDone { response }).1 is Report,
        next(s, Event::CallDone { response }).0.outcomes == s.outcomes.push(
            outcome_of(s.criterion, response),
        ),
        forall|i: int|
            0 <= i < later.len() ==> #[trigger] actions(
                next(s, Event::CallDone { response }).0,
                later,
            )[i] is Nothing,
        run(next(s, Event::CallDone { response }).0, later) == next(
            s,
            Event::CallDone { response },
        ).0,
{
    let stopped = next(s, Event::CallDone { response }).0;
    lemma_deploys(stopped, later);
    lemma_done_stays(stopped, later);
}

/// A run that is over stays as it is.
pub proof fn lemma_done_stays(s: State, events: Seq<Event>)
    requires
        s.phase is Done,
    ensures
        run(s, events) == s,
    decreases events.len(),
{
    if events.len() > 0 {
        lemma_done_stays(s, events.skip(1));
    }
}

/// In a fail-fast run, whatever happens, a failed call is the last one
/// issued: the run is over, and the number of calls issued is the failed
/// call's position plus one.
pub proof fn law_fail_fast_failure_is_last(
    criterion: Criterion,
    calls: Seq<CallDescriptor>,
    events: Seq<Event>,
    k: int,
)
    requires
        calls.len() <= usize::MAX,
        0 <= k < run(initial(Mode::FailFast, criterion, calls), events).outcomes.len(),
        run(initial(Mode::FailFast, criterion, calls), events).outcomes[k] is Failure,
    ensures
        run(initial(Mode::FailFast, criterion, calls), events).phase is Done,
        run(initial(Mode::FailFast, criterion, calls), events).issued() == k + 1,
        issued_indexes(actions(initial(Mode::FailFast, criterion, calls), events)) == positions(
            0,
            (k + 1) as nat,
        ),
{
    lemma_issued(initial(Mode::FailFast, criterion, calls), events);
}

/// In a collect-all run that has come to its report, every call of the
/// sequence was asked for exactly once, in order, whatever the outcomes
/// were; and one outcome is recorded for each.
pub proof fn law_collect_all_issues_every_call(
    criterion: Criterion,
    calls: Seq<CallDescriptor>,
    events: Seq<Event>,
)
    requires
        calls.len() <= usize::MAX,
        run(initial(Mode::CollectAll, criterion, calls), events).phase is Done,
        run(initial(Mode::CollectAll, criterion, calls), events).fatal is None,
    ensures
        issued_indexes(actions(initial(Mode::CollectAll, criterion, calls), events)) == positions(
            0,
            calls.len(),
        ),
        run(initial(Mode::CollectAll, criterion, calls), events).outcomes.len() == calls.len(),
{
    lemma_issued(initial(Mode::CollectAll, criterion, calls), events);
}

/// The events of a setup that succeeds, with `artifact` read from disk.
pub open spec fn setup_events(artifact: Vec<u8>) -> Seq<Event> {
    seq![
        Event::Start,
        Event::Provisioned,
        Event::ArtifactRead { bytes: artifact },
        Event::Deployed,
    ]
}

/// The events in which the calls come back with `responses`, in order.
pub open spec fn call_events(responses: Seq<Response>) -> Seq<Event> {
    responses.map_values(|response: Response| Event::CallDone { response })
}

/// The outcomes of `responses` under `criterion`, in order.
pub open spec fn outcomes_of(criterion: Criterion, responses: Seq<Response>) -> Seq<Outcome> {
    responses.map_values(|response: Response| outcome_of(criterion, response))
}

/// Running through two sequences of events in a row is running through
/// their concatenation.
pub proof fn lemma_run_concat(s: State, first: Seq<Event>, second: Seq<Event>)
    ensures
        run(s, first + second) == run(run(s, first), second),
    decreases first.len(),
{
    if first.len() == 0 {
        assert(first + second =~= second);
    } else {
        assert((first + second).skip(1) =~= first.skip(1) + second);
        lemma_run_concat(next(s, first[0]).0, first.skip(1), second);
    }
}

/// A setup that succeeds leaves the run waiting for its first call, or
/// over if there is none to make.
proof fn lemma_setup(start: State, artifact: Vec<u8>)
    requires
        start.phase is Idle,
    ensures
        run(start, setup_events(artifact)) == (State {
            phase: if start.calls.len() == 0 {
                Phase::Done
            } else {
                Phase::Calling
            },
            ..start
        }),
{
    let setup = setup_events(artifact);
    let s1 = next(start, setup[0]).0;
    let s2 = next(s1, setup[1]).0;
    let s3 = next(s2, setup[2]).0;
    let s4 = next(s3, setup[3]).0;
    assert(setup.skip(1)[0] == setup[1]);
    assert(setup.skip(1).skip(1)[0] == setup[2]);
    assert(setup.skip(1).skip(1).skip(1)[0] == setup[3]);
    assert(setup.skip(1).skip(1).skip(1).skip(1).len() == 0);
    assert(run(s4, setup.skip(1).skip(1).skip(1).skip(1)) == s4);
    assert(run(s3, setup.skip(1).skip(1).skip(1)) == s4);
    assert(run(s2, setup.skip(1).skip(1)) == s4);
    assert(run(s1, setup.skip(1)) == s4);
}

proof fn lemma_fail_fast_tail(s: State, responses: Seq<Response>, k: int)
    requires
        s.wf(),
        s.mode is FailFast,
        s.phase is Calling,
        0 <= k < responses.len(),
        s.outcomes.len() + k < s.calls.len(),
        forall|i: int| 0 <= i < k ==> outcome_of(s.criterion, #[trigger] responses[i]) is Success,
        outcome_of(s.criterion, responses[k]) is Failure,
    ensures
        run(s, call_events(responses)) == (State {
            phase: Phase::Done,
            outcomes: s.outcomes + outcomes_of(s.criterion, responses.take(k + 1)),
            ..s
        }),
    decreases k,
{
    let events = call_events(responses);
    let s1 = next(s, events[0]).0;
    let first = outcome_of(s.criterion, responses[0]);
    assert(events.skip(1) =~= call_events(responses.skip(1)));
    assert(s.outcomes.push(first) + outcomes_of(s.criterion, responses.skip(1).take(k))
        =~= s.outcomes + outcomes_of(s.criterion, responses.take(k + 1)));
    if k == 0 {
        lemma_done_stays(s1, events.skip(1));
        assert(responses.skip(1).take(0) =~= Seq::<Response>::empty());
    } else {
        lemma_next_wf(s, events[0]);
        assert forall|i: int| 0 <= i < k - 1 implies outcome_of(
            s.criterion,
            #[trigger] responses.skip(1)[i],
        ) is Success by {
            assert(responses.skip(1)[i] == responses[i + 1]);
        }
        lemma_fail_fast_tail(s1, responses.skip(1), k - 1);
    }
}

proof fn lemma_collect_all_tail(s: State, responses: Seq<Response>)
    requires
        s.wf(),
        s.mode is CollectAll,
        s.phase is Calling,
        s.outcomes.len() + responses.len() == s.calls.len(),
    ensures
        run(s, call_events(responses)) == (State {
            phase: Phase::Done,
            outcomes: s.outcomes + outcomes_of(s.criterion, responses),
            ..s
        }),
    decreases responses.len(),
{
    let events = call_events(responses);
    let s1 = next(s, events[0]).0;
    let first = outcome_of(s.criterion, responses[0]);
    assert(events.skip(1) =~= call_events(responses.skip(1)));
    assert(s.outcomes.push(first) + outcomes_of(s.criterion, responses.skip(1)) =~= s.outcomes
        + outcomes_of(s.criterion, responses));
    if responses.len() == 1 {
        assert(run(s1, events.skip(1)) == s1);
    } else {
        lemma_next_wf(s, events[0]);
        lemma_collect_all_tail(s1, responses.skip(1));
    }
}

/// A collect-all run whose setup succeeds and whose calls all come back
/// ends with one outcome for each call of the sequence, in order: the
/// outcome of that call's own response, whatever the other calls did.
pub proof fn law_collect_all_records_every_outcome(
    criterion: Criterion,
    calls: Seq<CallDescriptor>,
    artifact: Vec<u8>,
    responses: Seq<Response>,
)
    requires
        calls.len() <= usize::MAX,
        responses.len() == calls.len(),
    ensures
        run(
            initial(Mode::CollectAll, criterion, calls),
            setup_events(artifact) + call_events(responses),
        ) == (State {
            phase: Phase::Done,
            outcomes: outcomes_of(criterion, responses),
            ..initial(Mode::CollectAll, criterion, calls)
        }),
{
    let start = initial(Mode::CollectAll, criterion, calls);
    let setup = setup_events(artifact);
    lemma_run_concat(start, setup, call_events(responses));
    lemma_setup(start, artifact);
    let s4 = run(start, setup);
    if calls.len() == 0 {
        assert(call_events(responses) =~= Seq::<Event>::empty());
        assert(outcomes_of(criterion, responses) =~= Seq::<Outcome>::empty());
    } else {
        lemma_collect_all_tail(s4, responses);
        assert(s4.outcomes + outcomes_of(criterion, responses) =~= outcomes_of(
            criterion,
            responses,
        ));
    }
}

/// A fail-fast run whose setup succeeds and whose calls come back with
/// `responses`, of which the one at `k` is the first to fail, ends with the
/// outcomes of the calls up to and including that one, and of no other.
pub proof fn law_fail_fast_records_up_to_first_failure(
    criterion: Criterion,
    calls: Seq<CallDescriptor>,
    artifact: Vec<u8>,
    responses: Seq<Response>,
    k: int,
)
    requires
        calls.len() <= usize::MAX,
        0 <= k < responses.len(),
        k < calls.len(),
        forall|i: int| 0 <= i < k ==> outcome_of(criterion, #[trigger] responses[i]) is Success,
        outcome_of(criterion, responses[k]) is Failure,
    ensures
        run(
            initial(Mode::FailFast, criterion, calls),
            setup_events(artifact) + call_events(responses),
        ) == (State {
            phase: Phase::Done,
            outcomes: outcomes_of(criterion, responses.take(k + 1)),
            ..initial(Mode::FailFast, criterion, calls)
        }),
{
    let start = initial(Mode::FailFast, criterion, calls);
    lemma_run_concat(start, setup_events(artifact), call_events(responses));
    lemma_setup(start, artifact);
    let ready = run(start, setup_events(artifact));
    lemma_fail_fast_tail(ready, responses, k);
    assert(ready.outcomes + outcomes_of(criterion, responses.take(k + 1)) =~= outcomes_of(
        criterion,
        responses.take(k + 1),
    ));
}

/// In a collect-all run, a call that comes back while another is left is
/// followed by the next one, whether it failed or not.
pub proof fn law_collect_all_continues(s: State, response: Response)
    requires
        s.wf(),
        s.mode is CollectAll,
        s.phase is Calling,
        s.outcomes.len() + 1 < s.calls.len(),
    ensures
        next(s, Event::CallDone { response }).1 == (Action::Issue {
            index: (s.outcomes.len() + 1) as usize,
        }),
{
}

/// Calls are issued one at a time: the first is asked for when the deploy
/// has succeeded, every later one when the call before it has come back.
pub proof fn law_calls_are_serialized(s: State, event: Event)
    requires
        s.wf(),
    ensures
        next(s, event).1 matches Action::Issue { index } ==> {
            &&& index == s.issued()
            &&& index == 0 ==> event is Deployed && s.phase is Deploying
            &&& index > 0 ==> event is CallDone && s.phase is Calling
        },
{
}

/// The judgement of a call does not depend on what was recorded before it:
/// two runs under the same criterion that receive the same response for their
/// outstanding call record the same outcome for it.
pub proof fn law_judgement_ignores_history(a: State, b: State, response: Response)
    requires
        a.phase is Calling,
        b.phase is Calling,
        a.criterion == b.criterion,
    ensures
        next(a, Event::CallDone { response }).0.outcomes.last() == next(
            b,
            Event::CallDone { response },
        ).0.outcomes.last(),
        next(a, Event::CallDone { response }).0.outcomes.last() == outcome_of(a.criterion, response),
{
}

/// A setup that fails ends the run with no call asked for, before or after.
pub proof fn law_no_calls_after_fatal(
    mode: Mode,
    criterion: Criterion,
    calls: Seq<CallDescriptor>,
    events: Seq<Event>,
)
    requires
        calls.len() <= usize::MAX,
        run(initial(mode, criterion, calls), events).fatal is Some,
    ensures
        issued_indexes(actions(initial(mode, criterion, calls), events)) == Seq::<int>::empty(),
        run(initial(mode, criterion, calls), events).outcomes.len() == 0,
{
    lemma_issued(initial(mode, criterion, calls), events);
    assert(positions(0, 0) =~= Seq::<int>::empty());
}

} // verus!
