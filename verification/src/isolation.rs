//! Requests in flight at the same time do not see each other.
//!
//! The middleware keeps no state between requests: what it does for a request
//! depends on that request's stage, its store and what is reported of it, and
//! it writes to that request's store only. This module puts several requests
//! side by side, lets what happens to them interleave in any order, and
//! proves that each request ends up exactly where it would have, had it been
//! alone.

use crate::errors::ExtractionError;
use crate::extractor::ExtractedOso;
use crate::middleware::{admission, entries_admitted, transition, Event, OracleSource, Stage};
use crate::trace::{last_stage, stage_after};
use vstd::prelude::*;

verus! {

/// What there is to know of a request in flight: its stage, and the oracle
/// entries in its store.
pub struct InFlight {
    pub stage: Stage,
    pub entries: Seq<ExtractedOso>,
}

/// What can happen to a request.
pub enum Moment<Req, Resp, Rej> {
    /// The middleware admits it; its pipeline has this oracle attached, or
    /// none.
    Admitted(Option<ExtractedOso>),
    /// An event is reported of it.
    Reported(Event<Req, Resp, Rej>),
}

/// The request after one moment.
pub open spec fn deliver<Req, Resp, Rej>(
    source: OracleSource,
    request: InFlight,
    moment: Moment<Req, Resp, Rej>,
) -> InFlight {
    match moment {
        Moment::Admitted(attached) => InFlight {
            stage: admission::<Req, Resp, Rej>(source, attached).0,
            entries: entries_admitted(source, attached, request.entries),
        },
        Moment::Reported(event) => InFlight {
            stage: transition(request.stage, event).0,
            entries: request.entries,
        },
    }
}

/// The request after `moments`, with no other request around.
pub open spec fn alone<Req, Resp, Rej>(
    source: OracleSource,
    request: InFlight,
    moments: Seq<Moment<Req, Resp, Rej>>,
) -> InFlight
    decreases moments.len(),
{
    if moments.len() == 0 {
        request
    } else {
        alone(source, deliver(source, request, moments[0]), moments.drop_first())
    }
}

/// The requests in flight after `arrivals`: each arrival names a request and
/// brings it one moment. An arrival for a request that is not in flight is
/// dropped.
pub open spec fn together<Req, Resp, Rej>(
    source: OracleSource,
    requests: Map<nat, InFlight>,
    arrivals: Seq<(nat, Moment<Req, Resp, Rej>)>,
) -> Map<nat, InFlight>
    decreases arrivals.len(),
{
    if arrivals.len() == 0 {
        requests
    } else {
        let id = arrivals[0].0;
        let moved = if requests.dom().contains(id) {
            requests.insert(id, deliver(source, requests[id], arrivals[0].1))
        } else {
            requests
        };
        together(source, moved, arrivals.drop_first())
    }
}

/// The moments among `arrivals` that are for request `id`, in their order.
pub open spec fn moments_of<Req, Resp, Rej>(
    arrivals: Seq<(nat, Moment<Req, Resp, Rej>)>,
    id: nat,
) -> Seq<Moment<Req, Resp, Rej>>
    decreases arrivals.len(),
{
    if arrivals.len() == 0 {
        Seq::empty()
    } else if arrivals[0].0 == id {
        seq![arrivals[0].1] + moments_of(arrivals.drop_first(), id)
    } else {
        moments_of(arrivals.drop_first(), id)
    }
}

/// However the moments of concurrent requests interleave, each request
/// reaches the stage and holds the oracle entries that its own moments alone
/// lead to. No request observes what was published for another.
pub proof fn requests_are_isolated<Req, Resp, Rej>(
    source: OracleSource,
    requests: Map<nat, InFlight>,
    arrivals: Seq<(nat, Moment<Req, Resp, Rej>)>,
    id: nat,
)
    requires
        requests.dom().contains(id),
    ensures
        together(source, requests, arrivals).dom().contains(id),
        together(source, requests, arrivals)[id] == alone(
            source,
            requests[id],
            moments_of(arrivals, id),
        ),
    decreases arrivals.len(),
{
    if arrivals.len() > 0 {
        let first = arrivals[0].0;
        let moment = arrivals[0].1;
        let rest = arrivals.drop_first();
        let moved = if requests.dom().contains(first) {
            requests.insert(first, deliver(source, requests[first], moment))
        } else {
            requests
        };
        requests_are_isolated(source, moved, rest, id);
        if first == id {
            let mine = seq![moment] + moments_of(rest, id);
            assert(mine[0] == moment);
            assert(mine.drop_first() =~= moments_of(rest, id));
        }
    }
}

/// `events` as moments of a request: each one reported, in the same order.
pub open spec fn reported<Req, Resp, Rej>(events: Seq<Event<Req, Resp, Rej>>) -> Seq<
    Moment<Req, Resp, Rej>,
> {
    Seq::new(events.len(), |i: int| Moment::Reported(events[i]))
}

/// Reports move a request through its stages and leave its store alone.
proof fn reports_keep_the_store<Req, Resp, Rej>(
    source: OracleSource,
    request: InFlight,
    events: Seq<Event<Req, Resp, Rej>>,
)
    ensures
        alone(source, request, reported(events)) == (InFlight {
            stage: stage_after(request.stage, events),
            entries: request.entries,
        }),
    decreases events.len(),
{
    if events.len() > 0 {
        let moved = deliver(source, request, Moment::Reported(events[0]));
        reports_keep_the_store(source, moved, events.drop_first());
        assert(reported(events)[0] == Moment::Reported(events[0]));
        assert(reported(events).drop_first() =~= reported(events.drop_first()));
    } else {
        assert(reported(events).len() == 0);
    }
}

/// However many other requests are in flight and whatever is published for
/// them, a request that was admitted with an oracle holds that oracle in its
/// store from then on, and stands where its own events have brought it: its
/// handler extracts the oracle that its own decision was taken with.
pub proof fn each_request_extracts_its_own_oracle<Req, Resp, Rej>(
    source: OracleSource,
    requests: Map<nat, InFlight>,
    arrivals: Seq<(nat, Moment<Req, Resp, Rej>)>,
    id: nat,
    attached: Option<ExtractedOso>,
    events: Seq<Event<Req, Resp, Rej>>,
)
    requires
        requests.dom().contains(id),
        moments_of(arrivals, id) == seq![Moment::Admitted(attached)] + reported(events),
        source.resolved(attached) is Some,
    ensures
        together(source, requests, arrivals).dom().contains(id),
        together(source, requests, arrivals)[id].stage == last_stage(source, attached, events),
        ExtractedOso::extracted(together(source, requests, arrivals)[id].entries) == Ok::<
            ExtractedOso,
            ExtractionError,
        >(source.resolved(attached).unwrap()),
{
    let first = Moment::<Req, Resp, Rej>::Admitted(attached);
    let mine = seq![first] + reported(events);
    requests_are_isolated(source, requests, arrivals, id);
    assert(mine[0] == first);
    assert(mine.drop_first() =~= reported(events));
    reports_keep_the_store(source, deliver(source, requests[id], first), events);
}

/// What happens to one request leaves every other request, its store
/// included, as it was.
pub proof fn other_requests_are_untouched<Req, Resp, Rej>(
    source: OracleSource,
    requests: Map<nat, InFlight>,
    id: nat,
    moment: Moment<Req, Resp, Rej>,
    other: nat,
)
    requires
        requests.dom().contains(other),
        other != id,
    ensures
        together(source, requests, seq![(id, moment)])[other] == requests[other],
{
    let arrivals = seq![(id, moment)];
    let moved = if requests.dom().contains(id) {
        requests.insert(id, deliver(source, requests[id], moment))
    } else {
        requests
    };
    assert(arrivals.drop_first().len() == 0);
    assert(together(source, moved, arrivals.drop_first()) == moved);
}

} // verus!
