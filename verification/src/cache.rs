//! The write-once store of the OpenAPI document.

use utoipa::openapi::OpenApi;
use vstd::prelude::*;

verus! {

/// The OpenAPI document of `utoipa`. The library stores it and hands it to
/// the serialisers; it never looks inside.
#[verifier::external_type_specification]
#[verifier::external_body]
pub struct ExOpenApi(utoipa::openapi::OpenApi);

/// What a store holds after `doc` was offered to it: the first document
/// offered stays, a later one is dropped.
pub open spec fn stored_after(
    before: Option<OpenApi>,
    doc: OpenApi,
) -> Option<OpenApi> {
    if before is Some {
        before
    } else {
        Some(doc)
    }
}

/// What a store holds after each document of `docs` was offered to it in
/// turn.
pub open spec fn stored_after_all(before: Option<OpenApi>, docs: Seq<OpenApi>) -> Option<OpenApi>
    decreases docs.len(),
{
    if docs.len() == 0 {
        before
    } else {
        stored_after_all(stored_after(before, docs[0]), docs.drop_first())
    }
}

/// A store that holds a document keeps it, whatever is offered afterwards and
/// however often: the filled state is final.
pub proof fn lemma_filled_store_is_final(before: Option<OpenApi>, docs: Seq<OpenApi>)
    requires
        before is Some,
    ensures
        stored_after_all(before, docs) == before,
    decreases docs.len(),
{
    if docs.len() > 0 {
        lemma_filled_store_is_final(before, docs.drop_first());
    }
}

/// After one or more documents were offered to an empty store, it holds the
/// first of them.
pub proof fn lemma_first_write_wins(docs: Seq<OpenApi>)
    requires
        docs.len() >= 1,
    ensures
        stored_after_all(None, docs) == Some(docs[0]),
{
    lemma_filled_store_is_final(Some(docs[0]), docs.drop_first());
}

/// A store holds a document exactly when something was offered to it: one
/// to which nothing was offered is empty and cannot be read, and one offer
/// is enough to make it readable for good.
pub proof fn lemma_store_is_filled_by_first_write(docs: Seq<OpenApi>)
    ensures
        stored_after_all(None, docs) is Some <==> docs.len() >= 1,
{
    if docs.len() >= 1 {
        lemma_first_write_wins(docs);
    }
}

/// A slot for one OpenAPI document that is written at most once.
pub struct SpecCache {
    slot: Option<OpenApi>,
}

impl View for SpecCache {
    type V = Option<OpenApi>;

    closed spec fn view(&self) -> Option<OpenApi> {
        self.slot
    }
}

impl SpecCache {
    /// An empty store.
    pub fn new() -> (cache: SpecCache)
        ensures
            cache@ is None,
    {
        SpecCache { slot: None }
    }

    /// Whether a document has been stored.
    pub fn is_initialized(&self) -> (set: bool)
        ensures
            set == (self@ is Some),
    {
        self.slot.is_some()
    }
}

/// Stores `api` unless the store already holds a document, and returns the
/// document that the store holds from now on.
pub fn set_openapi_spec(cache: &mut SpecCache, api: OpenApi) -> (stored: &OpenApi)
    ensures
        final(cache)@ == stored_after(old(cache)@, api),
        final(cache)@ == Some(*stored),
{
    if cache.slot.is_none() {
        cache.slot = Some(api);
    }
    cache.slot.as_ref().unwrap()
}

/// The stored document. Reading an empty store is a defect of the caller,
/// not a condition to recover from: such a call is not admitted.
pub fn get_openapi_spec(cache: &SpecCache) -> (stored: &OpenApi)
    requires
        cache@ is Some,
    ensures
        cache@ == Some(*stored),
{
    cache.slot.as_ref().unwrap()
}

} // verus!
