//! The step that runs once when the application boots: it settles the
//! document, stores it, and mounts the configured routes.

use crate::cache::{set_openapi_spec, stored_after, SpecCache};
use crate::config::{add_configured_endpoints, configured_routes, EndpointConfig};
use crate::routes::RouteTable;
use utoipa::openapi::OpenApi;
use vstd::prelude::*;

verus! {

/// The document to boot with: the one handed in directly where there is one,
/// else the one that `build` makes. With a direct document `build` is not
/// called.
pub fn boot_document<F: FnOnce() -> OpenApi>(direct: Option<OpenApi>, build: F) -> (doc: OpenApi)
    requires
        direct is None ==> build.requires(()),
    ensures
        match direct {
            Some(given) => doc == given,
            None => build.ensures((), doc),
        },
{
    match direct {
        Some(given) => given,
        None => build(),
    }
}

/// Boots the document service. The document is `direct` where it is given
/// and the result of `build` otherwise; it is offered to the store, which
/// keeps it unless it held one already. Then every route that `config` asks
/// for is mounted after those of `app`.
pub fn initialize<F: FnOnce() -> OpenApi>(
    cache: &mut SpecCache,
    app: RouteTable,
    config: &EndpointConfig,
    direct: Option<OpenApi>,
    build: F,
) -> (table: RouteTable)
    requires
        direct is None ==> build.requires(()),
    ensures
        final(cache)@ is Some,
        match direct {
            Some(given) => final(cache)@ == stored_after(old(cache)@, given),
            None => exists|built: OpenApi| #[trigger]
                build.ensures((), built) && final(cache)@ == stored_after(old(cache)@, built),
        },
        table@ == app@ + configured_routes(*config),
{
    let doc = boot_document(direct, build);
    let _stored = set_openapi_spec(cache, doc);
    add_configured_endpoints(app, config)
}

} // verus!
