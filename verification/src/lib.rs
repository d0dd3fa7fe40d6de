//! Authorization middleware for actix-web, backed by an Oso policy engine.
//!
//! Every request passes the middleware before it reaches a handler. The
//! middleware publishes a handle to the policy engine in the request's
//! extensions, asks a caller-supplied function for a decision, and either
//! forwards the request or answers with the rejection.
//!
//! This crate holds the decisions: which oracle a request gets, what is
//! published where, and which action follows each event of a request's life.
//! Waiting for the decision function and for the wrapped service is the
//! caller's part; [`middleware::OsoMiddlewareInner::receive`] and
//! [`middleware::step`] tell it what to do next. Where nothing has to be
//! waited for, [`middleware::OsoMiddlewareInner::call`] takes a request
//! through in one go.
//!
//! What holds of every request is proved in [`trace`], and that requests in
//! flight together do not see each other in [`isolation`].

pub mod context;
pub mod errors;
pub mod extractor;
pub mod isolation;
pub mod middleware;
pub mod trace;

pub use crate::extractor::ExtractedOso;
use vstd::prelude::*;

verus! {

/// The middleware factory, under the name it has at the crate root.
pub type OsoAuthorization<F> = crate::middleware::OsoMiddleware<F>;

/// The middleware instance, under the name it has at the crate root.
pub type OsoAuthorizationMiddleware<S, F> = crate::middleware::OsoMiddlewareInner<S, F>;

} // verus!
