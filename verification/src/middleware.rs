//! The middleware: its factory, its per-service instance, and the decisions
//! it takes over the life of one request.
//!
//! A request is admitted once, when it arrives: an oracle is resolved for it
//! and published in its extensions, or the request is refused. After that the
//! caller reports what happened and is told what to do next:
//!
//! | stage      | event                 | next stage | action                    |
//! |------------|-----------------------|------------|---------------------------|
//! | `Arrived`  | admitted, oracle      | `Deciding` | `Decide`                  |
//! | `Arrived`  | admitted, no oracle   | `Finished` | `Respond` (unavailable)   |
//! | `Deciding` | `Decided(Continue)`   | `Serving`  | `Serve`                   |
//! | `Deciding` | `Decided(Reject)`     | `Finished` | `Respond` (declined)      |
//! | `Serving`  | `Served`              | `Finished` | `Respond` (inner)         |
//! | any        | anything else         | `Finished` | `Halt`                    |

use crate::context::{published, store_entry};
use crate::errors::{OracleUnavailableError, Rejection};
use crate::extractor::ExtractedOso;
use actix_web::dev::Extensions;
use oso::Oso;
use std::rc::Rc;
use std::sync::Arc;
use vstd::prelude::*;

verus! {

/// Where the instance takes the oracle for a request from. Chosen once, when
/// the factory is built.
pub enum OracleSource {
    /// The oracle given to the factory.
    Bound(ExtractedOso),
    /// Whatever oracle is attached to the pipeline when the request arrives.
    Attached,
}

impl OracleSource {
    /// The oracle for a request that finds `attached` on its pipeline.
    pub open spec fn resolved(self, attached: Option<ExtractedOso>) -> Option<ExtractedOso> {
        match self {
            OracleSource::Bound(handle) => Some(handle),
            OracleSource::Attached => attached,
        }
    }

    /// Resolves the oracle for a request: a new reference to the bound one,
    /// or the attached one.
    pub fn resolve(&self, attached: Option<ExtractedOso>) -> (oracle: Option<ExtractedOso>)
        ensures
            oracle == self.resolved(attached),
    {
        match self {
            OracleSource::Bound(handle) => Some(handle.clone()),
            OracleSource::Attached => attached,
        }
    }
}

impl Clone for OracleSource {
    /// The same source; a bound oracle is shared, not copied.
    fn clone(&self) -> (source: OracleSource)
        ensures
            source == *self,
    {
        match self {
            OracleSource::Bound(handle) => OracleSource::Bound(handle.clone()),
            OracleSource::Attached => OracleSource::Attached,
        }
    }
}

/// How far a request has come.
#[derive(Clone, Copy, Debug, PartialEq, Eq, Structural)]
pub enum Stage {
    /// The request has not been admitted yet.
    Arrived,
    /// The decision function has been asked and has not answered.
    Deciding,
    /// The wrapped service has the request and has not answered.
    Serving,
    /// The request was answered or given up.
    Finished,
}

/// What the decision function made of a request.
pub enum Decision<Req, Rej> {
    /// Let the request through; it may have been modified.
    Continue(Req),
    /// Turn the request away.
    Reject(Rej),
}

impl<Req, Rej> Decision<Req, Rej> {
    /// Reads the result of a decision function; any error is a rejection.
    pub fn from_result(result: Result<Req, Rej>) -> (decision: Decision<Req, Rej>)
        ensures
            decision == match result {
                Ok(request) => Decision::<Req, Rej>::Continue(request),
                Err(error) => Decision::<Req, Rej>::Reject(error),
            },
    {
        match result {
            Ok(request) => Decision::Continue(request),
            Err(error) => Decision::Reject(error),
        }
    }
}

/// Something that happened to an admitted request.
pub enum Event<Req, Resp, Rej> {
    /// The decision function answered.
    Decided(Decision<Req, Rej>),
    /// The wrapped service answered.
    Served(Resp),
    /// The pipeline gave the request up.
    Cancelled,
}

/// The middleware's answer to a request: its own rejection on the left, the
/// wrapped service's response on the right.
pub enum Reply<Resp, Rej> {
    Left(Rejection<Rej>),
    Right(Resp),
}

impl<Resp, Rej> Reply<Resp, Rej> {
    /// Resolves the reply to one response: `left` makes it of a rejection,
    /// `right` of the wrapped service's response.
    pub fn resolve<R, L: FnOnce(Rejection<Rej>) -> R, H: FnOnce(Resp) -> R>(
        self,
        left: L,
        right: H,
    ) -> (response: R)
        requires
            self matches Reply::Left(rejection) ==> left.requires((rejection,)),
            self matches Reply::Right(inner) ==> right.requires((inner,)),
        ensures
            match self {
                Reply::Left(rejection) => left.ensures((rejection,), response),
                Reply::Right(inner) => right.ensures((inner,), response),
            },
    {
        match self {
            Reply::Left(rejection) => left(rejection),
            Reply::Right(inner) => right(inner),
        }
    }
}

/// What has to happen next for a request.
pub enum Action<Req, Resp, Rej> {
    /// Call the decision function with the request and this oracle, which
    /// is the one published in the request's store.
    Decide(ExtractedOso),
    /// Hand this request to the wrapped service.
    Serve(Req),
    /// Answer with this reply.
    Respond(Reply<Resp, Rej>),
    /// Nothing: the request is over, or the event was not the one awaited.
    Halt,
}

/// The stage and the action with which a request starts, if it finds
/// `attached` on its pipeline: to the decision function with the resolved
/// oracle, or refused at once if there is none.
pub open spec fn admission<Req, Resp, Rej>(
    source: OracleSource,
    attached: Option<ExtractedOso>,
) -> (Stage, Action<Req, Resp, Rej>) {
    match source.resolved(attached) {
        Some(oracle) => (Stage::Deciding, Action::Decide(oracle)),
        None => (
            Stage::Finished,
            Action::Respond(Reply::Left(Rejection::Unavailable(OracleUnavailableError))),
        ),
    }
}

/// The oracle entries of a request's store once the request is admitted, if
/// the store held `before`: the resolved oracle alone, or, if none is
/// resolved, what was there.
pub open spec fn entries_admitted(
    source: OracleSource,
    attached: Option<ExtractedOso>,
    before: Seq<ExtractedOso>,
) -> Seq<ExtractedOso> {
    match source.resolved(attached) {
        Some(oracle) => seq![oracle],
        None => before,
    }
}

/// The stage and the action that follow `event` at `stage`.
pub open spec fn transition<Req, Resp, Rej>(
    stage: Stage,
    event: Event<Req, Resp, Rej>,
) -> (Stage, Action<Req, Resp, Rej>) {
    match (stage, event) {
        (Stage::Deciding, Event::Decided(Decision::Continue(request))) => (
            Stage::Serving,
            Action::Serve(request),
        ),
        (Stage::Deciding, Event::Decided(Decision::Reject(error))) => (
            Stage::Finished,
            Action::Respond(Reply::Left(Rejection::Declined(error))),
        ),
        (Stage::Serving, Event::Served(response)) => (
            Stage::Finished,
            Action::Respond(Reply::Right(response)),
        ),
        _ => (Stage::Finished, Action::Halt),
    }
}

/// Takes one event of an admitted request's life and says what has to happen
/// next.
///
/// `stage` is where the request stands. The caller performs the action
/// returned and comes back with the event that ends it, at the stage
/// returned. An event that is not the one awaited at `stage` ends the
/// request without calling anything.
pub fn step<Req, Resp, Rej>(
    stage: Stage,
    event: Event<Req, Resp, Rej>,
) -> (next: (Stage, Action<Req, Resp, Rej>))
    ensures
        next == transition(stage, event),
{
    match stage {
        Stage::Deciding => match event {
            Event::Decided(Decision::Continue(request)) => (Stage::Serving, Action::Serve(request)),
            Event::Decided(Decision::Reject(error)) => (
                Stage::Finished,
                Action::Respond(Reply::Left(Rejection::Declined(error))),
            ),
            _ => (Stage::Finished, Action::Halt),
        },
        Stage::Serving => match event {
            Event::Served(response) => (Stage::Finished, Action::Respond(Reply::Right(response))),
            _ => (Stage::Finished, Action::Halt),
        },
        _ => (Stage::Finished, Action::Halt),
    }
}

/// Whether `reply` answers `request` as the middleware has to, given the
/// oracle resolved for it, the decision function, the wrapped service and the
/// request's store.
///
/// Without an oracle the request is refused. With one, the decision function
/// is called with the request and the oracle: if it turns the request away
/// the reply is its rejection, and if it lets a request through the reply is
/// what the wrapped service made of that request and the store.
pub open spec fn passed<Req, Resp, Rej, D, H>(
    decide: D,
    serve: H,
    oracle: Option<ExtractedOso>,
    request: Req,
    store: Extensions,
    reply: Reply<Resp, Rej>,
) -> bool where D: Fn(Req, ExtractedOso) -> Result<Req, Rej>, H: Fn(Req, &Extensions) -> Resp {
    match oracle {
        None => reply == Reply::<Resp, Rej>::Left(Rejection::Unavailable(OracleUnavailableError)),
        Some(oracle) => exists|decided: Result<Req, Rej>| #[trigger]
            decide.ensures((request, oracle), decided) && match decided {
                Err(error) => reply == Reply::<Resp, Rej>::Left(Rejection::Declined(error)),
                Ok(forwarded) => exists|response: Resp| #[trigger]
                    serve.ensures((forwarded, &store), response) && reply == Reply::<
                        Resp,
                        Rej,
                    >::Right(response),
            },
    }
}

/// Middleware factory for Oso authorization.
///
/// Holds the oracle source and the decision function, and makes one
/// [`OsoMiddlewareInner`] for each service it is wrapped around.
pub struct OsoMiddleware<F> {
    source: OracleSource,
    authorize_fn: Arc<F>,
}

impl<F> OsoMiddleware<F> {
    /// Where requests get their oracle from.
    pub closed spec fn oracle_source(&self) -> OracleSource {
        self.source
    }

    /// The decision function.
    pub closed spec fn decision_fn(&self) -> F {
        *self.authorize_fn
    }

    /// Creates a factory from an initialized Oso instance and a decision
    /// function. `authorize_fn` will be called with each request and a handle
    /// to `oso`.
    pub fn new(oso: Oso, authorize_fn: F) -> (factory: OsoMiddleware<F>)
        ensures
            factory.oracle_source() matches OracleSource::Bound(handle) && handle@ == oso,
            factory.decision_fn() == authorize_fn,
    {
        OsoMiddleware {
            source: OracleSource::Bound(ExtractedOso::new(oso)),
            authorize_fn: Arc::new(authorize_fn),
        }
    }

    /// Creates a factory without an oracle of its own: each request uses the
    /// one attached to its pipeline, and is refused if there is none.
    pub fn deferred(authorize_fn: F) -> (factory: OsoMiddleware<F>)
        ensures
            factory.oracle_source() == OracleSource::Attached,
            factory.decision_fn() == authorize_fn,
    {
        OsoMiddleware { source: OracleSource::Attached, authorize_fn: Arc::new(authorize_fn) }
    }

    /// Wraps `service`: the instance shares this factory's oracle source and
    /// decision function.
    pub fn new_transform<S>(&self, service: S) -> (instance: OsoMiddlewareInner<S, F>)
        ensures
            instance.oracle_source() == self.oracle_source(),
            instance.decision_fn() == self.decision_fn(),
            instance.inner_service() == service,
    {
        OsoMiddlewareInner {
            service: Rc::new(service),
            source: self.source.clone(),
            authorize_fn: self.authorize_fn.clone(),
        }
    }
}

/// The middleware around one service.
pub struct OsoMiddlewareInner<S, F> {
    service: Rc<S>,
    source: OracleSource,
    authorize_fn: Arc<F>,
}

impl<S, F> Clone for OsoMiddlewareInner<S, F> {
    /// Another reference to the same service, oracle source and decision
    /// function.
    fn clone(&self) -> (instance: OsoMiddlewareInner<S, F>)
        ensures
            instance == *self,
    {
        OsoMiddlewareInner {
            service: self.service.clone(),
            source: self.source.clone(),
            authorize_fn: self.authorize_fn.clone(),
        }
    }
}

impl<S, F> OsoMiddlewareInner<S, F> {
    /// Where requests get their oracle from.
    pub closed spec fn oracle_source(&self) -> OracleSource {
        self.source
    }

    /// The decision function.
    pub closed spec fn decision_fn(&self) -> F {
        *self.authorize_fn
    }

    /// The wrapped service.
    pub closed spec fn inner_service(&self) -> S {
        *self.service
    }

    /// The decision function, for the caller to call.
    pub fn authorize_fn(&self) -> (f: &F)
        ensures
            *f == self.decision_fn(),
    {
        &*self.authorize_fn
    }

    /// The wrapped service, for the caller to call.
    pub fn service(&self) -> (service: &S)
        ensures
            *service == self.inner_service(),
    {
        &*self.service
    }

    /// Receives a request that has just arrived.
    ///
    /// `attached` is the oracle attached to the request's pipeline, if any,
    /// and `store` is the request's extensions. If an oracle is resolved it
    /// is published in `store` before anything else happens, replacing an
    /// earlier entry, and the decision function is to be called with it. If
    /// none is resolved the store is left alone and the request is refused.
    /// The caller performs the action returned and goes on with [`step`].
    pub fn receive<Req, Resp, Rej>(
        &self,
        attached: Option<ExtractedOso>,
        store: &mut Extensions,
    ) -> (next: (Stage, Action<Req, Resp, Rej>))
        ensures
            next == admission::<Req, Resp, Rej>(self.oracle_source(), attached),
            published(*final(store)) == entries_admitted(
                self.oracle_source(),
                attached,
                published(*old(store)),
            ),
    {
        match self.source.resolve(attached) {
            Some(oracle) => {
                store_entry(store, oracle.clone());
                (Stage::Deciding, Action::Decide(oracle))
            },
            None => (
                Stage::Finished,
                Action::Respond(Reply::Left(Rejection::Unavailable(OracleUnavailableError))),
            ),
        }
    }

    /// Takes a request through the middleware in one go, where neither the
    /// decision function nor the wrapped service has to be waited for.
    ///
    /// The request is received, the decision function is called with it and
    /// the published oracle, and the wrapped service is called with what the
    /// decision function returned and the request's store, or not at all.
    pub fn call<Req, Resp, Rej>(
        &self,
        request: Req,
        attached: Option<ExtractedOso>,
        store: &mut Extensions,
    ) -> (reply: Reply<Resp, Rej>) where
        F: Fn(Req, ExtractedOso) -> Result<Req, Rej>,
        S: Fn(Req, &Extensions) -> Resp,

        requires
            forall|asked: Req, oracle: ExtractedOso|
                #[trigger] self.decision_fn().requires((asked, oracle)),
            forall|served: Req, seen: &Extensions|
                #[trigger] self.inner_service().requires((served, seen)),
        ensures
            published(*final(store)) == entries_admitted(
                self.oracle_source(),
                attached,
                published(*old(store)),
            ),
            passed(
                self.decision_fn(),
                self.inner_service(),
                self.oracle_source().resolved(attached),
                request,
                *final(store),
                reply,
            ),
    {
        let (stage, action) = self.receive::<Req, Resp, Rej>(attached, store);
        match action {
            Action::Decide(oracle) => {
                let decided = (self.authorize_fn())(request, oracle);
                let (stage, action) = step::<Req, Resp, Rej>(
                    stage,
                    Event::Decided(Decision::from_result(decided)),
                );
                match action {
                    Action::Serve(forwarded) => {
                        let response = (self.service())(forwarded, &*store);
                        let (_, action) = step::<Req, Resp, Rej>(stage, Event::Served(response));
                        match action {
                            Action::Respond(reply) => reply,
                            _ => unreached(),
                        }
                    },
                    Action::Respond(reply) => reply,
                    _ => unreached(),
                }
            },
            Action::Respond(reply) => reply,
            _ => unreached(),
        }
    }
}

} // verus!
