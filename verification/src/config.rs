//! The configuration that says which routes exist, and the routes it asks
//! for.

use crate::routes::{
    add_openapi_endpoints, add_optional_endpoint, export_routes, has_path,
    lemma_lookup_finds_routes, lookup, optional_route, Endpoint, RouteTable,
};
use vstd::prelude::*;
use vstd::seq_lib::lemma_seq_concat_contains_all_elements;

verus! {

/// One of the three viewers of the document.
#[derive(Clone, Copy, Debug, PartialEq, Eq, Structural)]
pub enum UiKind {
    Redoc,
    Scalar,
    Swagger,
}

impl UiKind {
    /// The endpoint that renders this viewer's page.
    pub open spec fn page(self) -> Endpoint {
        match self {
            UiKind::Redoc => Endpoint::RedocPage,
            UiKind::Scalar => Endpoint::ScalarPage,
            UiKind::Swagger => Endpoint::SwaggerPage,
        }
    }

    /// The endpoint that renders this viewer's page.
    pub fn page_endpoint(self) -> (endpoint: Endpoint)
        ensures
            endpoint == self.page(),
    {
        match self {
            UiKind::Redoc => Endpoint::RedocPage,
            UiKind::Scalar => Endpoint::ScalarPage,
            UiKind::Swagger => Endpoint::SwaggerPage,
        }
    }
}

/// The block of one viewer: the path of its page and the paths on which the
/// document is exported for it. A path that is missing mounts nothing; the
/// others of the block are mounted all the same.
#[derive(Clone, Debug, PartialEq, Eq)]
pub struct UiConfig {
    pub url: Option<String>,
    pub spec_json_url: Option<String>,
    pub spec_yaml_url: Option<String>,
}

/// The whole configuration: the paths of the bare exports, and one optional
/// block for each viewer. A viewer without a block has no route at all.
#[derive(Clone, Debug, PartialEq, Eq)]
pub struct EndpointConfig {
    pub spec_json_url: Option<String>,
    pub spec_yaml_url: Option<String>,
    pub redoc: Option<UiConfig>,
    pub scalar: Option<UiConfig>,
    pub swagger: Option<UiConfig>,
}

/// The routes that a viewer's block asks for: its page, its JSON export and
/// its YAML export, each where its path is given; none without a block.
pub open spec fn ui_routes(kind: UiKind, block: Option<UiConfig>) -> Seq<(Seq<char>, Endpoint)> {
    match block {
        Some(block) => optional_route(block.url, kind.page()) + export_routes(
            block.spec_json_url,
            block.spec_yaml_url,
        ),
        None => Seq::empty(),
    }
}

/// The routes that a configuration asks for: the bare exports, then the
/// blocks of Redoc, Scalar and Swagger.
pub open spec fn configured_routes(config: EndpointConfig) -> Seq<(Seq<char>, Endpoint)> {
    export_routes(config.spec_json_url, config.spec_yaml_url) + ui_routes(
        UiKind::Redoc,
        config.redoc,
    ) + ui_routes(UiKind::Scalar, config.scalar) + ui_routes(UiKind::Swagger, config.swagger)
}

/// Mounts the routes of one viewer's block after those that `app` has.
pub fn add_ui_endpoints(app: RouteTable, kind: UiKind, block: &Option<UiConfig>) -> (table:
    RouteTable)
    ensures
        table@ == app@ + ui_routes(kind, *block),
{
    match block {
        Some(block) => {
            let with_page = add_optional_endpoint(app, &block.url, kind.page_endpoint());
            let table = add_openapi_endpoints(
                with_page,
                &block.spec_json_url,
                &block.spec_yaml_url,
            );
            assert(table@ =~= app@ + ui_routes(kind, Some(*block)));
            table
        },
        None => {
            assert(app@ =~= app@ + Seq::<(Seq<char>, Endpoint)>::empty());
            app
        },
    }
}

/// Mounts every route that `config` asks for after those that `app` has, and
/// no other.
pub fn add_configured_endpoints(app: RouteTable, config: &EndpointConfig) -> (table: RouteTable)
    ensures
        table@ == app@ + configured_routes(*config),
{
    let bare = add_openapi_endpoints(app, &config.spec_json_url, &config.spec_yaml_url);
    let redoc = add_ui_endpoints(bare, UiKind::Redoc, &config.redoc);
    let scalar = add_ui_endpoints(redoc, UiKind::Scalar, &config.scalar);
    let table = add_ui_endpoints(scalar, UiKind::Swagger, &config.swagger);
    assert(table@ =~= app@ + configured_routes(*config));
    table
}

/// Whether an optional path is given and is `path`.
pub open spec fn names(slot: Option<String>, path: Seq<char>) -> bool {
    slot matches Some(given) && given@ == path
}

/// Whether a viewer's block puts `endpoint` on `path`.
pub open spec fn block_names(
    kind: UiKind,
    block: Option<UiConfig>,
    path: Seq<char>,
    endpoint: Endpoint,
) -> bool {
    block matches Some(block) && ((endpoint == kind.page() && names(block.url, path)) || (endpoint
        == Endpoint::JsonExport && names(block.spec_json_url, path)) || (endpoint
        == Endpoint::YamlExport && names(block.spec_yaml_url, path)))
}

/// Whether a configuration puts `endpoint` on `path`, in its bare export
/// paths or in one of its blocks.
pub open spec fn config_names(config: EndpointConfig, path: Seq<char>, endpoint: Endpoint) -> bool {
    (endpoint == Endpoint::JsonExport && names(config.spec_json_url, path)) || (endpoint
        == Endpoint::YamlExport && names(config.spec_yaml_url, path)) || block_names(
        UiKind::Redoc,
        config.redoc,
        path,
        endpoint,
    ) || block_names(UiKind::Scalar, config.scalar, path, endpoint) || block_names(
        UiKind::Swagger,
        config.swagger,
        path,
        endpoint,
    )
}

/// Whether a configuration switches an endpoint on: a bare export by its
/// path or by the export path of a block, a viewer's page by the page path of
/// its block.
pub open spec fn enabled(config: EndpointConfig, endpoint: Endpoint) -> bool {
    match endpoint {
        Endpoint::JsonExport => config.spec_json_url is Some || (config.redoc matches Some(block)
            && block.spec_json_url is Some) || (config.scalar matches Some(block)
            && block.spec_json_url is Some) || (config.swagger matches Some(block)
            && block.spec_json_url is Some),
        Endpoint::YamlExport => config.spec_yaml_url is Some || (config.redoc matches Some(block)
            && block.spec_yaml_url is Some) || (config.scalar matches Some(block)
            && block.spec_yaml_url is Some) || (config.swagger matches Some(block)
            && block.spec_yaml_url is Some),
        Endpoint::RedocPage => config.redoc matches Some(block) && block.url is Some,
        Endpoint::ScalarPage => config.scalar matches Some(block) && block.url is Some,
        Endpoint::SwaggerPage => config.swagger matches Some(block) && block.url is Some,
    }
}

/// Whether some route of `routes` leads to `endpoint`.
pub open spec fn serves(routes: Seq<(Seq<char>, Endpoint)>, endpoint: Endpoint) -> bool {
    exists|i: int| 0 <= i < routes.len() && (#[trigger] routes[i]).1 == endpoint
}

/// An optional path gives a route exactly where it is given.
pub proof fn lemma_optional_route(
    slot: Option<String>,
    at: Endpoint,
    path: Seq<char>,
    endpoint: Endpoint,
)
    ensures
        optional_route(slot, at).contains((path, endpoint)) <==> endpoint == at && names(
            slot,
            path,
        ),
{
    let routes = optional_route(slot, at);
    if endpoint == at && names(slot, path) {
        assert(routes[0] == (path, endpoint));
    }
}

/// A block gives a route exactly where it names it.
pub proof fn lemma_block_routes(
    kind: UiKind,
    block: Option<UiConfig>,
    path: Seq<char>,
    endpoint: Endpoint,
)
    ensures
        ui_routes(kind, block).contains((path, endpoint)) <==> block_names(
            kind,
            block,
            path,
            endpoint,
        ),
{
    if let Some(b) = block {
        let page = optional_route(b.url, kind.page());
        let json = optional_route(b.spec_json_url, Endpoint::JsonExport);
        let yaml = optional_route(b.spec_yaml_url, Endpoint::YamlExport);
        lemma_optional_route(b.url, kind.page(), path, endpoint);
        lemma_optional_route(b.spec_json_url, Endpoint::JsonExport, path, endpoint);
        lemma_optional_route(b.spec_yaml_url, Endpoint::YamlExport, path, endpoint);
        lemma_seq_concat_contains_all_elements(json, yaml, (path, endpoint));
        lemma_seq_concat_contains_all_elements(page, json + yaml, (path, endpoint));
    }
}

/// Route gating: the routes mounted for a configuration are exactly those
/// that it names. A route lies in the table if and only if the configuration
/// puts its endpoint on its path.
pub proof fn lemma_route_gating(config: EndpointConfig, path: Seq<char>, endpoint: Endpoint)
    ensures
        configured_routes(config).contains((path, endpoint)) <==> config_names(
            config,
            path,
            endpoint,
        ),
{
    let route = (path, endpoint);
    let json = optional_route(config.spec_json_url, Endpoint::JsonExport);
    let yaml = optional_route(config.spec_yaml_url, Endpoint::YamlExport);
    let redoc = ui_routes(UiKind::Redoc, config.redoc);
    let scalar = ui_routes(UiKind::Scalar, config.scalar);
    let swagger = ui_routes(UiKind::Swagger, config.swagger);
    lemma_optional_route(config.spec_json_url, Endpoint::JsonExport, path, endpoint);
    lemma_optional_route(config.spec_yaml_url, Endpoint::YamlExport, path, endpoint);
    lemma_block_routes(UiKind::Redoc, config.redoc, path, endpoint);
    lemma_block_routes(UiKind::Scalar, config.scalar, path, endpoint);
    lemma_block_routes(UiKind::Swagger, config.swagger, path, endpoint);
    lemma_seq_concat_contains_all_elements(json, yaml, route);
    lemma_seq_concat_contains_all_elements(json + yaml, redoc, route);
    lemma_seq_concat_contains_all_elements(json + yaml + redoc, scalar, route);
    lemma_seq_concat_contains_all_elements(json + yaml + redoc + scalar, swagger, route);
}

/// The first of four optional paths that is given.
spec fn first_given(
    bare: Option<String>,
    redoc: Option<String>,
    scalar: Option<String>,
    swagger: Option<String>,
) -> Option<String> {
    if bare is Some {
        bare
    } else if redoc is Some {
        redoc
    } else if scalar is Some {
        scalar
    } else {
        swagger
    }
}

/// The path that a block gives for one of its three routes, if the block is
/// there and gives one.
spec fn block_path(block: Option<UiConfig>, endpoint: Endpoint) -> Option<String> {
    match block {
        Some(block) => match endpoint {
            Endpoint::JsonExport => block.spec_json_url,
            Endpoint::YamlExport => block.spec_yaml_url,
            _ => block.url,
        },
        None => None,
    }
}

/// One path on which a configuration puts an endpoint that it switches on.
spec fn enabled_path(config: EndpointConfig, endpoint: Endpoint) -> Seq<char> {
    let given = match endpoint {
        Endpoint::JsonExport => first_given(
            config.spec_json_url,
            block_path(config.redoc, endpoint),
            block_path(config.scalar, endpoint),
            block_path(config.swagger, endpoint),
        ),
        Endpoint::YamlExport => first_given(
            config.spec_yaml_url,
            block_path(config.redoc, endpoint),
            block_path(config.scalar, endpoint),
            block_path(config.swagger, endpoint),
        ),
        Endpoint::RedocPage => block_path(config.redoc, endpoint),
        Endpoint::ScalarPage => block_path(config.scalar, endpoint),
        Endpoint::SwaggerPage => block_path(config.swagger, endpoint),
    };
    match given {
        Some(path) => path@,
        None => Seq::empty(),
    }
}

/// Route gating by endpoint: for every choice of what a configuration
/// switches on, the table mounted for it leads to exactly the endpoints that
/// are switched on.
pub proof fn lemma_endpoint_gating(config: EndpointConfig, endpoint: Endpoint)
    ensures
        serves(configured_routes(config), endpoint) <==> enabled(config, endpoint),
{
    let routes = configured_routes(config);
    if serves(routes, endpoint) {
        let i = choose|i: int| 0 <= i < routes.len() && (#[trigger] routes[i]).1 == endpoint;
        assert(routes.contains(routes[i]));
        lemma_route_gating(config, routes[i].0, endpoint);
    }
    if enabled(config, endpoint) {
        let path = enabled_path(config, endpoint);
        assert(config_names(config, path, endpoint));
        lemma_route_gating(config, path, endpoint);
        let i = choose|i: int| 0 <= i < routes.len() && routes[i] == (path, endpoint);
        assert(routes[i].1 == endpoint);
    }
}

/// A path that the configuration does not name is answered by nothing, and
/// what answers on a path is an endpoint that the configuration put there.
pub proof fn lemma_unnamed_path_is_absent(config: EndpointConfig, path: Seq<char>)
    ensures
        lookup(configured_routes(config), path) is None <==> forall|endpoint: Endpoint|
            !config_names(config, path, endpoint),
        lookup(configured_routes(config), path) matches Some(endpoint) ==> config_names(
            config,
            path,
            endpoint,
        ),
{
    let routes = configured_routes(config);
    lemma_lookup_finds_routes(routes, path);
    if let Some(endpoint) = lookup(routes, path) {
        lemma_route_gating(config, path, endpoint);
    }
    if has_path(routes, path) {
        let i = choose|i: int| 0 <= i < routes.len() && (#[trigger] routes[i]).0 == path;
        assert(routes.contains(routes[i]));
        lemma_route_gating(config, path, routes[i].1);
    }
    assert forall|endpoint: Endpoint| config_names(config, path, endpoint) implies has_path(
        routes,
        path,
    ) by {
        lemma_route_gating(config, path, endpoint);
        let i = choose|i: int| 0 <= i < routes.len() && routes[i] == (path, endpoint);
        assert(routes[i].0 == path);
    }
}

} // verus!
