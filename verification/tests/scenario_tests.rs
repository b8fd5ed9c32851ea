use loadbench::scenario::{
    all_scenario_kinds, build_request, default_targets, health_url, method_name,
    scenario_config, HttpMethod, ScenarioKind,
};

#[test]
fn health_scenario_defaults() {
    let s = scenario_config(ScenarioKind::Health);
    assert_eq!(s.endpoint_label, "Health Check");
    assert_eq!(s.path, "/health");
    assert_eq!(s.method, HttpMethod::Get);
    assert!(s.body.is_none());
    assert_eq!(s.default_concurrency, 100);
    assert_eq!(s.default_total_requests, 1000);
}

#[test]
fn rest_scenario_defaults() {
    let s = scenario_config(ScenarioKind::Rest);
    assert_eq!(s.endpoint_label, "Create Product");
    assert_eq!(s.path, "/api/products");
    assert_eq!(s.method, HttpMethod::Post);
    let body = s.body.unwrap();
    assert_eq!(
        body,
        "{\"name\":\"Test Product\",\"description\":\"A test product for benchmarking\",\"price\":1999,\"inventory\":100}"
    );
    assert_eq!(s.default_concurrency, 50);
    assert_eq!(s.default_total_requests, 500);
}

#[test]
fn graphql_scenario_defaults() {
    let s = scenario_config(ScenarioKind::Graphql);
    assert_eq!(s.endpoint_label, "GraphQL Query");
    assert_eq!(s.path, "/graphql");
    assert_eq!(s.method, HttpMethod::Post);
    assert_eq!(
        s.body.unwrap(),
        "{\"query\":\"{ products { id name price inventory } }\"}"
    );
    assert_eq!(s.default_concurrency, 30);
    assert_eq!(s.default_total_requests, 300);
}

#[test]
fn the_full_suite_runs_in_a_fixed_order() {
    let kinds = all_scenario_kinds();
    assert_eq!(
        kinds,
        vec![ScenarioKind::Health, ScenarioKind::Rest, ScenarioKind::Graphql]
    );
}

#[test]
fn both_targets_in_table_order() {
    let targets = default_targets();
    assert_eq!(targets.len(), 2);
    assert_eq!(targets[0].framework, "Axum");
    assert_eq!(targets[0].base_url, "http://localhost:3000");
    assert_eq!(targets[1].framework, "ActixWeb");
    assert_eq!(targets[1].base_url, "http://localhost:3001");
}

#[test]
fn requests_are_built_per_target() {
    let targets = default_targets();
    let s = scenario_config(ScenarioKind::Rest);
    let r = build_request(&targets[1], &s, 50, 500);
    assert_eq!(r.url, "http://localhost:3001/api/products");
    assert_eq!(r.method, HttpMethod::Post);
    assert_eq!(r.body, s.body);
    assert_eq!(r.concurrency, 50);
    assert_eq!(r.total_requests, 500);
}

#[test]
fn health_urls_hang_under_the_base() {
    let targets = default_targets();
    assert_eq!(health_url(&targets[0]), "http://localhost:3000/health");
    assert_eq!(health_url(&targets[1]), "http://localhost:3001/health");
}

#[test]
fn methods_have_their_wire_names() {
    assert_eq!(method_name(HttpMethod::Get), "GET");
    assert_eq!(method_name(HttpMethod::Post), "POST");
}
