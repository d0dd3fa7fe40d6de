//! The oracle handle, and how a handler gets it back from its request.

use crate::context::{find_entry, published};
use crate::errors::ExtractionError;
use actix_web::dev::Extensions;
use oso::Oso;
use std::sync::Arc;
use vstd::prelude::*;

verus! {

/// `oso::Oso`, the policy engine. Nothing of its inside is known here; this
/// crate hands it on and never asks it anything.
#[verifier::external_type_specification]
#[verifier::external_body]
pub struct ExOso(Oso);

/// A shared handle to an initialized Oso instance.
///
/// Cloning a handle gives another reference to the same instance, not a copy
/// of it. The middleware publishes one per request; a handler gets it with
/// [`ExtractedOso::from_request`].
pub struct ExtractedOso {
    oso: Arc<Oso>,
}

impl View for ExtractedOso {
    type V = Oso;

    /// The instance this handle refers to.
    closed spec fn view(&self) -> Oso {
        *self.oso
    }
}

impl Clone for ExtractedOso {
    /// Another handle to the same instance.
    fn clone(&self) -> (handle: ExtractedOso)
        ensures
            handle == *self,
    {
        ExtractedOso { oso: self.oso.clone() }
    }
}

impl std::ops::Deref for ExtractedOso {
    type Target = Oso;

    /// The instance behind the handle, so that it can be queried through
    /// the handle.
    fn deref(&self) -> (oso: &Oso)
        ensures
            *oso == self@,
    {
        &*self.oso
    }
}

impl ExtractedOso {
    /// Wraps an instance in a fresh handle.
    pub fn new(oso: Oso) -> (handle: ExtractedOso)
        ensures
            handle@ == oso,
    {
        ExtractedOso { oso: Arc::new(oso) }
    }

    /// The instance behind the handle.
    pub fn oso(&self) -> (oso: &Oso)
        ensures
            *oso == self@,
    {
        &*self.oso
    }

    /// What a lookup in a store with these entries gives.
    pub open spec fn extracted(entries: Seq<ExtractedOso>) -> Result<
        ExtractedOso,
        ExtractionError,
    > {
        if entries.len() > 0 {
            Ok(entries[0])
        } else {
            Err(ExtractionError::Missing)
        }
    }

    /// Gets the handle that the middleware published for this request, from
    /// the request's extensions.
    pub fn from_request(store: &Extensions) -> (result: Result<ExtractedOso, ExtractionError>)
        ensures
            result == Self::extracted(published(*store)),
    {
        match find_entry(store) {
            Some(entry) => Ok(entry.clone()),
            None => Err(ExtractionError::Missing),
        }
    }
}

} // verus!
