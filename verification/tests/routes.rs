use loco_openapi::config::{
    add_configured_endpoints, add_ui_endpoints, EndpointConfig, UiConfig, UiKind,
};
use loco_openapi::routes::{
    add_openapi_endpoints, add_optional_endpoint, Endpoint, Route, RouteTable,
};

fn some(path: &str) -> Option<String> {
    Some(path.to_string())
}

fn block(prefix: &str) -> UiConfig {
    UiConfig {
        url: some(prefix),
        spec_json_url: some(&format!("{prefix}/openapi.json")),
        spec_yaml_url: some(&format!("{prefix}/openapi.yaml")),
    }
}

fn empty_config() -> EndpointConfig {
    EndpointConfig {
        spec_json_url: None,
        spec_yaml_url: None,
        redoc: None,
        scalar: None,
        swagger: None,
    }
}

fn routes_of(table: &RouteTable) -> Vec<(String, Endpoint)> {
    let mut routes = Vec::new();
    for index in 0..table.len() {
        let route = table.route(index);
        routes.push((route.path.clone(), route.endpoint));
    }
    routes
}

fn pair(path: &str, endpoint: Endpoint) -> (String, Endpoint) {
    (path.to_string(), endpoint)
}

#[test]
fn new_table_has_no_routes() {
    let table = RouteTable::new();
    assert_eq!(table.len(), 0);
    assert_eq!(table.endpoint_at("/"), None);
}

#[test]
fn mount_appends_a_route() {
    let table = RouteTable::new()
        .mount("/a".to_string(), Endpoint::JsonExport)
        .mount("/b".to_string(), Endpoint::ScalarPage);
    assert_eq!(table.len(), 2);
    assert_eq!(
        *table.route(0),
        Route {
            path: "/a".to_string(),
            endpoint: Endpoint::JsonExport
        }
    );
    assert_eq!(
        *table.route(1),
        Route {
            path: "/b".to_string(),
            endpoint: Endpoint::ScalarPage
        }
    );
}

#[test]
fn endpoint_at_finds_the_first_route_on_a_path() {
    let table = RouteTable::new()
        .mount("/a".to_string(), Endpoint::JsonExport)
        .mount("/b".to_string(), Endpoint::YamlExport)
        .mount("/a".to_string(), Endpoint::RedocPage);
    assert_eq!(table.endpoint_at("/a"), Some(Endpoint::JsonExport));
    assert_eq!(table.endpoint_at("/b"), Some(Endpoint::YamlExport));
    assert_eq!(table.endpoint_at("/c"), None);
    assert_eq!(table.endpoint_at("/a/"), None);
}

#[test]
fn optional_endpoint_without_a_path_mounts_nothing() {
    let table = add_optional_endpoint(RouteTable::new(), &None, Endpoint::SwaggerPage);
    assert_eq!(table.len(), 0);
    let table = add_optional_endpoint(table, &some("/swagger"), Endpoint::SwaggerPage);
    assert_eq!(routes_of(&table), vec![pair("/swagger", Endpoint::SwaggerPage)]);
}

#[test]
fn both_export_paths_mount_both_exports() {
    let table = add_openapi_endpoints(
        RouteTable::new(),
        &some("/openapi.json"),
        &some("/openapi.yaml"),
    );
    assert_eq!(
        routes_of(&table),
        vec![
            pair("/openapi.json", Endpoint::JsonExport),
            pair("/openapi.yaml", Endpoint::YamlExport)
        ]
    );
}

#[test]
fn only_the_json_path_mounts_only_the_json_export() {
    let table = add_openapi_endpoints(RouteTable::new(), &some("/openapi.json"), &None);
    assert_eq!(
        routes_of(&table),
        vec![pair("/openapi.json", Endpoint::JsonExport)]
    );
    assert_eq!(table.endpoint_at("/openapi.yaml"), None);
}

#[test]
fn only_the_yaml_path_mounts_only_the_yaml_export() {
    let table = add_openapi_endpoints(RouteTable::new(), &None, &some("/openapi.yaml"));
    assert_eq!(
        routes_of(&table),
        vec![pair("/openapi.yaml", Endpoint::YamlExport)]
    );
    assert_eq!(table.endpoint_at("/openapi.json"), None);
}

#[test]
fn no_export_path_leaves_the_table_as_it_was() {
    let before = RouteTable::new().mount("/health".to_string(), Endpoint::RedocPage);
    let after = add_openapi_endpoints(before.clone(), &None, &None);
    assert_eq!(after, before);
}

#[test]
fn exports_are_mounted_after_the_routes_already_there() {
    let table = RouteTable::new().mount("/first".to_string(), Endpoint::ScalarPage);
    let table = add_openapi_endpoints(table, &some("/j"), &some("/y"));
    assert_eq!(
        routes_of(&table),
        vec![
            pair("/first", Endpoint::ScalarPage),
            pair("/j", Endpoint::JsonExport),
            pair("/y", Endpoint::YamlExport)
        ]
    );
}

#[test]
fn mounting_twice_on_one_path_keeps_both_routes() {
    let table = add_openapi_endpoints(RouteTable::new(), &some("/spec"), &None);
    let table = add_openapi_endpoints(table, &some("/spec"), &None);
    assert_eq!(
        routes_of(&table),
        vec![
            pair("/spec", Endpoint::JsonExport),
            pair("/spec", Endpoint::JsonExport)
        ]
    );
}

#[test]
fn page_endpoint_of_each_viewer() {
    assert_eq!(UiKind::Redoc.page_endpoint(), Endpoint::RedocPage);
    assert_eq!(UiKind::Scalar.page_endpoint(), Endpoint::ScalarPage);
    assert_eq!(UiKind::Swagger.page_endpoint(), Endpoint::SwaggerPage);
}

#[test]
fn a_viewer_block_mounts_its_page_and_its_exports() {
    let table = add_ui_endpoints(RouteTable::new(), UiKind::Redoc, &Some(block("/redoc")));
    assert_eq!(
        routes_of(&table),
        vec![
            pair("/redoc", Endpoint::RedocPage),
            pair("/redoc/openapi.json", Endpoint::JsonExport),
            pair("/redoc/openapi.yaml", Endpoint::YamlExport)
        ]
    );
}

#[test]
fn a_missing_viewer_block_mounts_nothing() {
    let table = add_ui_endpoints(RouteTable::new(), UiKind::Scalar, &None);
    assert_eq!(table.len(), 0);
}

#[test]
fn a_partial_viewer_block_mounts_what_it_names() {
    let partial = UiConfig {
        url: None,
        spec_json_url: some("/swagger/openapi.json"),
        spec_yaml_url: None,
    };
    let table = add_ui_endpoints(RouteTable::new(), UiKind::Swagger, &Some(partial));
    assert_eq!(
        routes_of(&table),
        vec![pair("/swagger/openapi.json", Endpoint::JsonExport)]
    );
}

#[test]
fn empty_configuration_mounts_nothing() {
    let table = add_configured_endpoints(RouteTable::new(), &empty_config());
    assert_eq!(table.len(), 0);
}

#[test]
fn full_configuration_mounts_every_route_in_order() {
    let config = EndpointConfig {
        spec_json_url: some("/api-docs/openapi.json"),
        spec_yaml_url: some("/api-docs/openapi.yaml"),
        redoc: Some(block("/redoc")),
        scalar: Some(block("/scalar")),
        swagger: Some(block("/swagger")),
    };
    let table = add_configured_endpoints(RouteTable::new(), &config);
    assert_eq!(
        routes_of(&table),
        vec![
            pair("/api-docs/openapi.json", Endpoint::JsonExport),
            pair("/api-docs/openapi.yaml", Endpoint::YamlExport),
            pair("/redoc", Endpoint::RedocPage),
            pair("/redoc/openapi.json", Endpoint::JsonExport),
            pair("/redoc/openapi.yaml", Endpoint::YamlExport),
            pair("/scalar", Endpoint::ScalarPage),
            pair("/scalar/openapi.json", Endpoint::JsonExport),
            pair("/scalar/openapi.yaml", Endpoint::YamlExport),
            pair("/swagger", Endpoint::SwaggerPage),
            pair("/swagger/openapi.json", Endpoint::JsonExport),
            pair("/swagger/openapi.yaml", Endpoint::YamlExport)
        ]
    );
}

#[test]
fn omitted_scalar_block_leaves_scalar_unanswered() {
    let config = EndpointConfig {
        spec_json_url: None,
        spec_yaml_url: None,
        redoc: Some(block("/redoc")),
        scalar: None,
        swagger: Some(block("/swagger")),
    };
    let table = add_configured_endpoints(RouteTable::new(), &config);
    assert_eq!(table.endpoint_at("/scalar"), None);
    assert_eq!(table.endpoint_at("/scalar/openapi.json"), None);
    assert_eq!(table.endpoint_at("/scalar/openapi.yaml"), None);
    assert_eq!(table.endpoint_at("/redoc"), Some(Endpoint::RedocPage));
    assert_eq!(table.endpoint_at("/swagger"), Some(Endpoint::SwaggerPage));
}

#[test]
fn every_choice_of_features_mounts_exactly_those() {
    for mask in 0u32..32 {
        let json = mask & 1 != 0;
        let yaml = mask & 2 != 0;
        let redoc = mask & 4 != 0;
        let scalar = mask & 8 != 0;
        let swagger = mask & 16 != 0;
        let page_only = |on: bool, url: &str| {
            if on {
                Some(UiConfig {
                    url: some(url),
                    spec_json_url: None,
                    spec_yaml_url: None,
                })
            } else {
                None
            }
        };
        let config = EndpointConfig {
            spec_json_url: if json { some("/openapi.json") } else { None },
            spec_yaml_url: if yaml { some("/openapi.yaml") } else { None },
            redoc: page_only(redoc, "/redoc"),
            scalar: page_only(scalar, "/scalar"),
            swagger: page_only(swagger, "/swagger"),
        };
        let table = add_configured_endpoints(RouteTable::new(), &config);
        let expect = |on: bool, endpoint: Endpoint| if on { Some(endpoint) } else { None };
        assert_eq!(
            table.endpoint_at("/openapi.json"),
            expect(json, Endpoint::JsonExport)
        );
        assert_eq!(
            table.endpoint_at("/openapi.yaml"),
            expect(yaml, Endpoint::YamlExport)
        );
        assert_eq!(table.endpoint_at("/redoc"), expect(redoc, Endpoint::RedocPage));
        assert_eq!(
            table.endpoint_at("/scalar"),
            expect(scalar, Endpoint::ScalarPage)
        );
        assert_eq!(
            table.endpoint_at("/swagger"),
            expect(swagger, Endpoint::SwaggerPage)
        );
        assert_eq!(table.len(), mask.count_ones() as usize);
    }
}
