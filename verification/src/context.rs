//! The per-request store in which the middleware publishes the oracle.
//!
//! The store is actix's `Extensions`, a map keyed by type that lives as long
//! as its request. This crate uses one slot of it: the one for
//! [`ExtractedOso`].

use crate::extractor::ExtractedOso;
use actix_web::dev::Extensions;
use vstd::prelude::*;

verus! {

/// `actix_http::Extensions`, which actix-web hands on as
/// `actix_web::dev::Extensions`. Nothing of its inside is known here.
#[verifier::external_type_specification]
#[verifier::external_body]
pub struct ExExtensions(Extensions);

/// The entries of type [`ExtractedOso`] that a store holds. A store keeps one
/// value per type, so there is at most one.
pub uninterp spec fn published(store: Extensions) -> Seq<ExtractedOso>;

/// Stores `entry` with `Extensions::insert`. Trusted: afterwards the store
/// holds `entry` as its one value of this type, whatever it held before. The
/// value that `insert` hands back is dropped.
#[verifier::external_body]
pub(crate) fn store_entry(store: &mut Extensions, entry: ExtractedOso)
    ensures
        published(*final(store)) == seq![entry],
{
    store.insert(entry);
}

/// Looks the entry up with `Extensions::get`. Trusted: the result is the
/// stored value of this type if the store holds one, and `None` if not.
#[verifier::external_body]
pub(crate) fn find_entry(store: &Extensions) -> (entry: Option<&ExtractedOso>)
    ensures
        entry == if published(*store).len() > 0 {
            Some(&published(*store)[0])
        } else {
            None
        },
{
    store.get::<ExtractedOso>()
}

} // verus!
