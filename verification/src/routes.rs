//! The table of routes that serve the document and its viewers.

use vstd::prelude::*;

verus! {

/// What answers a request on a route.
#[derive(Clone, Copy, Debug, PartialEq, Eq, Structural)]
pub enum Endpoint {
    /// The document as JSON.
    JsonExport,
    /// The document as YAML.
    YamlExport,
    /// The Redoc viewer's page.
    RedocPage,
    /// The Scalar viewer's page.
    ScalarPage,
    /// The Swagger viewer's page.
    SwaggerPage,
}

/// One route: a path and what answers on it.
#[derive(Clone, Debug, PartialEq, Eq)]
pub struct Route {
    pub path: String,
    pub endpoint: Endpoint,
}

impl View for Route {
    type V = (Seq<char>, Endpoint);

    open spec fn view(&self) -> (Seq<char>, Endpoint) {
        (self.path@, self.endpoint)
    }
}

/// The endpoint of the first route of `routes` that lies on `path`, if there
/// is one.
pub open spec fn lookup(routes: Seq<(Seq<char>, Endpoint)>, path: Seq<char>) -> Option<Endpoint>
    decreases routes.len(),
{
    if routes.len() == 0 {
        None
    } else if routes[0].0 == path {
        Some(routes[0].1)
    } else {
        lookup(routes.drop_first(), path)
    }
}

/// Whether some route of `routes` lies on `path`.
pub open spec fn has_path(routes: Seq<(Seq<char>, Endpoint)>, path: Seq<char>) -> bool {
    exists|i: int| 0 <= i < routes.len() && (#[trigger] routes[i]).0 == path
}

/// A lookup finds nothing exactly when no route lies on the path, and what it
/// finds is a route of the table.
pub proof fn lemma_lookup_finds_routes(routes: Seq<(Seq<char>, Endpoint)>, path: Seq<char>)
    ensures
        lookup(routes, path) is Some <==> has_path(routes, path),
        lookup(routes, path) matches Some(endpoint) ==> routes.contains((path, endpoint)),
    decreases routes.len(),
{
    if routes.len() > 0 {
        let rest = routes.drop_first();
        lemma_lookup_finds_routes(rest, path);
        if routes[0].0 == path {
            assert(routes[0] == (path, routes[0].1));
        } else {
            if has_path(rest, path) {
                let i = choose|i: int| 0 <= i < rest.len() && (#[trigger] rest[i]).0 == path;
                assert(routes[i + 1] == rest[i]);
            }
            if has_path(routes, path) {
                let i = choose|i: int| 0 <= i < routes.len() && (#[trigger] routes[i]).0 == path;
                assert(rest[i - 1] == routes[i]);
            }
            if let Some(endpoint) = lookup(rest, path) {
                let i = choose|i: int| 0 <= i < rest.len() && rest[i] == (path, endpoint);
                assert(routes[i + 1] == (path, endpoint));
            }
        }
    }
}

/// The routes to mount, in the order in which they were mounted.
#[derive(Clone, Debug, PartialEq, Eq)]
pub struct RouteTable {
    routes: Vec<Route>,
}

impl View for RouteTable {
    type V = Seq<(Seq<char>, Endpoint)>;

    closed spec fn view(&self) -> Seq<(Seq<char>, Endpoint)> {
        self.routes@.map_values(|route: Route| route@)
    }
}

impl RouteTable {
    /// A table without routes.
    pub fn new() -> (table: RouteTable)
        ensures
            table@ == Seq::<(Seq<char>, Endpoint)>::empty(),
    {
        let table = RouteTable { routes: Vec::new() };
        assert(table@ =~= Seq::<(Seq<char>, Endpoint)>::empty());
        table
    }

    /// The number of routes.
    pub fn len(&self) -> (count: usize)
        ensures
            count == self@.len(),
    {
        self.routes.len()
    }

    /// The route at `index`, counted from the first one mounted.
    pub fn route(&self, index: usize) -> (route: &Route)
        requires
            index < self@.len(),
        ensures
            route@ == self@[index as int],
    {
        &self.routes[index]
    }

    /// The table with one more route, mounted after those it has.
    pub fn mount(self, path: String, endpoint: Endpoint) -> (table: RouteTable)
        ensures
            table@ == self@.push((path@, endpoint)),
    {
        let mut routes = self.routes;
        routes.push(Route { path, endpoint });
        let table = RouteTable { routes };
        assert(table@ =~= self@.push((path@, endpoint)));
        table
    }

    /// What answers on `path`: the endpoint of the first route mounted on
    /// exactly this path, or nothing where no route lies on it.
    pub fn endpoint_at(&self, path: &str) -> (found: Option<Endpoint>)
        ensures
            found == lookup(self@, path@),
    {
        let wanted = path.to_owned();
        let mut index: usize = 0;
        assert(self@.skip(0) =~= self@);
        while index < self.routes.len()
            invariant
                index <= self.routes.len(),
                wanted@ == path@,
                lookup(self@, path@) == lookup(self@.skip(index as int), path@),
            decreases self.routes.len() - index,
        {
            let ghost rest = self@.skip(index as int);
            assert(rest[0] == self.routes[index as int]@);
            assert(rest.drop_first() =~= self@.skip(index + 1));
            if self.routes[index].path == wanted {
                return Some(self.routes[index].endpoint);
            }
            index += 1;
        }
        None
    }
}

/// The route that an optional path asks for: one on that path, or none.
pub open spec fn optional_route(path: Option<String>, endpoint: Endpoint) -> Seq<
    (Seq<char>, Endpoint),
> {
    match path {
        Some(path) => seq![(path@, endpoint)],
        None => Seq::empty(),
    }
}

/// The routes that a pair of optional export paths asks for: the JSON
/// export, then the YAML export.
pub open spec fn export_routes(json_url: Option<String>, yaml_url: Option<String>) -> Seq<
    (Seq<char>, Endpoint),
> {
    optional_route(json_url, Endpoint::JsonExport) + optional_route(
        yaml_url,
        Endpoint::YamlExport,
    )
}

/// Mounts `endpoint` on `path` where a path is given, and nothing otherwise.
pub fn add_optional_endpoint(app: RouteTable, path: &Option<String>, endpoint: Endpoint) -> (table:
    RouteTable)
    ensures
        table@ == app@ + optional_route(*path, endpoint),
{
    match path {
        Some(path) => {
            let table = app.mount(path.clone(), endpoint);
            assert(table@ =~= app@ + seq![(path@, endpoint)]);
            table
        },
        None => {
            assert(app@ =~= app@ + Seq::<(Seq<char>, Endpoint)>::empty());
            app
        },
    }
}

/// Mounts the JSON export on `json_url` and the YAML export on `yaml_url`,
/// each only where its path is given. The routes that `app` had stay, and no
/// path is compared with one that is mounted already.
pub fn add_openapi_endpoints(
    app: RouteTable,
    json_url: &Option<String>,
    yaml_url: &Option<String>,
) -> (table: RouteTable)
    ensures
        table@ == app@ + export_routes(*json_url, *yaml_url),
{
    let with_json = add_optional_endpoint(app, json_url, Endpoint::JsonExport);
    let table = add_optional_endpoint(with_json, yaml_url, Endpoint::YamlExport);
    assert(table@ =~= app@ + export_routes(*json_url, *yaml_url));
    table
}

} // verus!
