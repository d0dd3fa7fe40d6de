//! What the middleware does over the whole life of a request.
//!
//! [`admission`] says how a request starts and [`transition`] what follows
//! one event. This module runs them over a sequence of events and proves what
//! holds of every such run: how often the decision function and the wrapped
//! service are called, what is answered, and what a handler finds in the
//! request's store.

use crate::errors::{ExtractionError, OracleUnavailableError, Rejection};
use crate::extractor::ExtractedOso;
use crate::middleware::{
    admission, entries_admitted, transition, Action, Decision, Event, OracleSource, Reply, Stage,
};
use vstd::prelude::*;

verus! {

/// The actions that a request at `stage` is told to take, one for each of
/// `events` in turn.
pub open spec fn follow<Req, Resp, Rej>(stage: Stage, events: Seq<Event<Req, Resp, Rej>>) -> Seq<
    Action<Req, Resp, Rej>,
>
    decreases events.len(),
{
    if events.len() == 0 {
        Seq::empty()
    } else {
        let next = transition(stage, events[0]);
        seq![next.1] + follow(next.0, events.drop_first())
    }
}

/// The stage that a request at `stage` reaches through `events`.
pub open spec fn stage_after<Req, Resp, Rej>(
    stage: Stage,
    events: Seq<Event<Req, Resp, Rej>>,
) -> Stage
    decreases events.len(),
{
    if events.len() == 0 {
        stage
    } else {
        stage_after(transition(stage, events[0]).0, events.drop_first())
    }
}

/// All the actions of a request's life: the one it is admitted with, then one
/// for each of `events` in turn.
pub open spec fn actions<Req, Resp, Rej>(
    source: OracleSource,
    attached: Option<ExtractedOso>,
    events: Seq<Event<Req, Resp, Rej>>,
) -> Seq<Action<Req, Resp, Rej>> {
    let start = admission::<Req, Resp, Rej>(source, attached);
    seq![start.1] + follow(start.0, events)
}

/// The stage at which a request stands after admission and `events`.
pub open spec fn last_stage<Req, Resp, Rej>(
    source: OracleSource,
    attached: Option<ExtractedOso>,
    events: Seq<Event<Req, Resp, Rej>>,
) -> Stage {
    stage_after(admission::<Req, Resp, Rej>(source, attached).0, events)
}

/// How often `taken` calls the decision function.
pub open spec fn asked<Req, Resp, Rej>(taken: Seq<Action<Req, Resp, Rej>>) -> nat
    decreases taken.len(),
{
    if taken.len() == 0 {
        0
    } else {
        let rest = asked(taken.drop_first());
        if taken[0] is Decide {
            rest + 1
        } else {
            rest
        }
    }
}

/// How often `taken` calls the wrapped service.
pub open spec fn served<Req, Resp, Rej>(taken: Seq<Action<Req, Resp, Rej>>) -> nat
    decreases taken.len(),
{
    if taken.len() == 0 {
        0
    } else {
        let rest = served(taken.drop_first());
        if taken[0] is Serve {
            rest + 1
        } else {
            rest
        }
    }
}

proof fn follow_unfold<Req, Resp, Rej>(
    stage: Stage,
    first: Event<Req, Resp, Rej>,
    rest: Seq<Event<Req, Resp, Rej>>,
)
    ensures
        follow(stage, seq![first] + rest) == seq![transition(stage, first).1] + follow(
            transition(stage, first).0,
            rest,
        ),
        stage_after(stage, seq![first] + rest) == stage_after(transition(stage, first).0, rest),
{
    let events = seq![first] + rest;
    assert(events[0] == first);
    assert(events.drop_first() =~= rest);
}

proof fn counts_unfold<Req, Resp, Rej>(
    first: Action<Req, Resp, Rej>,
    rest: Seq<Action<Req, Resp, Rej>>,
)
    ensures
        asked(seq![first] + rest) == asked(rest) + (if first is Decide {
            1nat
        } else {
            0nat
        }),
        served(seq![first] + rest) == served(rest) + (if first is Serve {
            1nat
        } else {
            0nat
        }),
{
    let taken = seq![first] + rest;
    assert(taken[0] == first);
    assert(taken.drop_first() =~= rest);
}

/// After admission the decision function is not called again, and the
/// wrapped service is called at most once, and only if the decision is still
/// awaited.
proof fn follow_calls<Req, Resp, Rej>(stage: Stage, events: Seq<Event<Req, Resp, Rej>>)
    ensures
        follow(stage, events).len() == events.len(),
        asked(follow(stage, events)) == 0,
        served(follow(stage, events)) <= 1,
        stage != Stage::Deciding ==> served(follow(stage, events)) == 0,
    decreases events.len(),
{
    if events.len() > 0 {
        let rest = events.drop_first();
        let next = transition(stage, events[0]);
        follow_calls(next.0, rest);
        assert(events =~= seq![events[0]] + rest);
        follow_unfold(stage, events[0], rest);
        counts_unfold(next.1, follow(next.0, rest));
    }
}

/// Each event gets one action, and admission one more.
pub proof fn one_action_per_event<Req, Resp, Rej>(
    source: OracleSource,
    attached: Option<ExtractedOso>,
    events: Seq<Event<Req, Resp, Rej>>,
)
    ensures
        actions(source, attached, events).len() == events.len() + 1,
{
    follow_calls(admission::<Req, Resp, Rej>(source, attached).0, events);
}

/// A finished request stays finished: whatever is reported, nothing is
/// called and nothing is answered.
pub proof fn finished_is_final<Req, Resp, Rej>(events: Seq<Event<Req, Resp, Rej>>)
    ensures
        follow(Stage::Finished, events).len() == events.len(),
        forall|i: int|
            0 <= i < events.len() ==> #[trigger] follow(Stage::Finished, events)[i] == Action::<
                Req,
                Resp,
                Rej,
            >::Halt,
        asked(follow(Stage::Finished, events)) == 0,
        served(follow(Stage::Finished, events)) == 0,
        stage_after(Stage::Finished, events) == Stage::Finished,
    decreases events.len(),
{
    if events.len() > 0 {
        let rest = events.drop_first();
        finished_is_final(rest);
        assert(events =~= seq![events[0]] + rest);
        follow_unfold(Stage::Finished, events[0], rest);
        counts_unfold(Action::<Req, Resp, Rej>::Halt, follow(Stage::Finished, rest));
    }
}

/// Over any events at all, in any order, a request causes one call of the
/// decision function if an oracle is resolved for it and none if not, and at
/// most one call of the wrapped service, never without a decision.
pub proof fn called_at_most_once<Req, Resp, Rej>(
    source: OracleSource,
    attached: Option<ExtractedOso>,
    events: Seq<Event<Req, Resp, Rej>>,
)
    ensures
        asked(actions(source, attached, events)) == (if source.resolved(attached) is Some {
            1nat
        } else {
            0nat
        }),
        served(actions(source, attached, events)) <= asked(actions(source, attached, events)),
{
    let start = admission::<Req, Resp, Rej>(source, attached);
    follow_calls(start.0, events);
    counts_unfold(start.1, follow(start.0, events));
}

/// The wrapped service is called only on a decision to continue, and with
/// the request that the decision function returned.
pub proof fn served_only_on_continue<Req, Resp, Rej>(
    stage: Stage,
    events: Seq<Event<Req, Resp, Rej>>,
    i: int,
)
    requires
        0 <= i < events.len(),
        follow(stage, events)[i] is Serve,
    ensures
        events[i] == Event::<Req, Resp, Rej>::Decided(
            Decision::Continue(follow(stage, events)[i]->Serve_0),
        ),
    decreases events.len(),
{
    let rest = events.drop_first();
    let next = transition(stage, events[0]);
    assert(events =~= seq![events[0]] + rest);
    follow_unfold(stage, events[0], rest);
    follow_calls(next.0, rest);
    if i > 0 {
        assert(follow(stage, events)[i] == follow(next.0, rest)[i - 1]);
        served_only_on_continue(next.0, rest, i - 1);
    }
}

/// A request that the decision function lets through reaches the wrapped
/// service exactly once, with the request as the decision function returned
/// it, and is answered with the service's response as it came. Nothing that
/// is reported afterwards changes that.
pub proof fn continue_is_served_once<Req, Resp, Rej>(
    source: OracleSource,
    attached: Option<ExtractedOso>,
    request: Req,
    response: Resp,
    rest: Seq<Event<Req, Resp, Rej>>,
)
    requires
        source.resolved(attached) is Some,
    ensures
        ({
            let events = seq![Event::Decided(Decision::Continue(request)), Event::Served(response)]
                + rest;
            let taken = actions(source, attached, events);
            &&& taken.len() == events.len() + 1
            &&& taken[0] == Action::<Req, Resp, Rej>::Decide(source.resolved(attached).unwrap())
            &&& taken[1] == Action::<Req, Resp, Rej>::Serve(request)
            &&& taken[2] == Action::<Req, Resp, Rej>::Respond(Reply::Right(response))
            &&& forall|i: int| 3 <= i < taken.len() ==> #[trigger] taken[i] == Action::<
                Req,
                Resp,
                Rej,
            >::Halt
            &&& asked(taken) == 1
            &&& served(taken) == 1
            &&& last_stage(source, attached, events) == Stage::Finished
        }),
{
    let e1 = Event::<Req, Resp, Rej>::Decided(Decision::Continue(request));
    let e2 = Event::<Req, Resp, Rej>::Served(response);
    let events = seq![e1, e2] + rest;
    let a0 = Action::<Req, Resp, Rej>::Decide(source.resolved(attached).unwrap());
    let a1 = Action::<Req, Resp, Rej>::Serve(request);
    let a2 = Action::<Req, Resp, Rej>::Respond(Reply::Right(response));
    let tail = follow(Stage::Finished, rest);
    assert(events =~= seq![e1] + (seq![e2] + rest));
    follow_unfold(Stage::Deciding, e1, seq![e2] + rest);
    follow_unfold(Stage::Serving, e2, rest);
    finished_is_final(rest);
    counts_unfold(a2, tail);
    counts_unfold(a1, seq![a2] + tail);
    counts_unfold(a0, seq![a1] + (seq![a2] + tail));
}

/// A request that the decision function turns away never reaches the
/// wrapped service, and is answered with the rejection as the decision
/// function gave it.
pub proof fn reject_is_never_served<Req, Resp, Rej>(
    source: OracleSource,
    attached: Option<ExtractedOso>,
    error: Rej,
    rest: Seq<Event<Req, Resp, Rej>>,
)
    requires
        source.resolved(attached) is Some,
    ensures
        ({
            let events = seq![Event::Decided(Decision::Reject(error))] + rest;
            let taken = actions(source, attached, events);
            &&& taken.len() == events.len() + 1
            &&& taken[0] == Action::<Req, Resp, Rej>::Decide(source.resolved(attached).unwrap())
            &&& taken[1] == Action::<Req, Resp, Rej>::Respond(
                Reply::Left(Rejection::Declined(error)),
            )
            &&& forall|i: int| 2 <= i < taken.len() ==> #[trigger] taken[i] == Action::<
                Req,
                Resp,
                Rej,
            >::Halt
            &&& asked(taken) == 1
            &&& served(taken) == 0
            &&& last_stage(source, attached, events) == Stage::Finished
        }),
{
    let e1 = Event::<Req, Resp, Rej>::Decided(Decision::Reject(error));
    let a0 = Action::<Req, Resp, Rej>::Decide(source.resolved(attached).unwrap());
    let a1 = Action::<Req, Resp, Rej>::Respond(Reply::Left(Rejection::Declined(error)));
    let tail = follow(Stage::Finished, rest);
    follow_unfold(Stage::Deciding, e1, rest);
    finished_is_final(rest);
    counts_unfold(a1, tail);
    counts_unfold(a0, seq![a1] + tail);
}

/// A request for which no oracle can be resolved is refused at once:
/// neither the decision function nor the wrapped service is ever called, and
/// nothing is published.
pub proof fn missing_oracle_refuses_at_once<Req, Resp, Rej>(
    source: OracleSource,
    attached: Option<ExtractedOso>,
    events: Seq<Event<Req, Resp, Rej>>,
    before: Seq<ExtractedOso>,
)
    requires
        source.resolved(attached) is None,
    ensures
        ({
            let taken = actions(source, attached, events);
            &&& taken.len() == events.len() + 1
            &&& taken[0] == Action::<Req, Resp, Rej>::Respond(
                Reply::Left(Rejection::Unavailable(OracleUnavailableError)),
            )
            &&& forall|i: int| 1 <= i < taken.len() ==> #[trigger] taken[i] == Action::<
                Req,
                Resp,
                Rej,
            >::Halt
            &&& asked(taken) == 0
            &&& served(taken) == 0
            &&& last_stage(source, attached, events) == Stage::Finished
            &&& entries_admitted(source, attached, before) == before
        }),
{
    let a0 = Action::<Req, Resp, Rej>::Respond(
        Reply::Left(Rejection::Unavailable(OracleUnavailableError)),
    );
    finished_is_final(events);
    counts_unfold(a0, follow(Stage::Finished, events));
}

/// A cancelled request goes no further: from whatever stage, neither the
/// decision function nor the wrapped service is called afterwards, whatever
/// is still reported.
pub proof fn cancelled_goes_no_further<Req, Resp, Rej>(
    stage: Stage,
    rest: Seq<Event<Req, Resp, Rej>>,
)
    ensures
        ({
            let events = seq![Event::Cancelled] + rest;
            let taken = follow(stage, events);
            &&& taken.len() == events.len()
            &&& forall|i: int| 0 <= i < taken.len() ==> #[trigger] taken[i] == Action::<
                Req,
                Resp,
                Rej,
            >::Halt
            &&& asked(taken) == 0
            &&& served(taken) == 0
            &&& stage_after(stage, events) == Stage::Finished
        }),
{
    let e0 = Event::<Req, Resp, Rej>::Cancelled;
    follow_unfold(stage, e0, rest);
    finished_is_final(rest);
    counts_unfold(Action::<Req, Resp, Rej>::Halt, follow(Stage::Finished, rest));
}

/// Once an oracle is resolved for a request, the request's store holds that
/// oracle and no other, whatever it held before: a lookup gives the oracle
/// that the decision function is called with. No later step touches the
/// store, so this holds while the decision function runs and while the
/// wrapped service does.
pub proof fn handler_extracts_the_deciding_oracle<Req, Resp, Rej>(
    source: OracleSource,
    attached: Option<ExtractedOso>,
    before: Seq<ExtractedOso>,
)
    requires
        source.resolved(attached) is Some,
    ensures
        ({
            let oracle = source.resolved(attached).unwrap();
            &&& admission::<Req, Resp, Rej>(source, attached) == (
                Stage::Deciding,
                Action::<Req, Resp, Rej>::Decide(oracle),
            )
            &&& entries_admitted(source, attached, before) == seq![oracle]
            &&& ExtractedOso::extracted(entries_admitted(source, attached, before)) == Ok::<
                ExtractedOso,
                ExtractionError,
            >(oracle)
        }),
{
}

/// Without a middleware ahead of it, a handler finds no oracle: the lookup
/// fails, it does not fall back to anything.
pub proof fn nothing_published_nothing_extracted()
    ensures
        ExtractedOso::extracted(Seq::empty()) == Err::<ExtractedOso, ExtractionError>(
            ExtractionError::Missing,
        ),
{
}

} // verus!
