//! Benchmark scenarios and orchestration data.
//!
//! A scenario names an endpoint of the shared HTTP contract together with
//! the method, the request body and the default load parameters that the
//! benchmark fires at it.  Each scenario is run against both targets, the
//! first target's full run before the second's, and the two result rows
//! are rendered in that order, so the table is deterministic.

use vstd::prelude::*;

verus! {

use vstd::string::StringExecFns;

/// The HTTP methods the load generator issues.  `Get` sends no body;
/// `Post` attaches the scenario's JSON body when there is one.
#[derive(Clone, Copy, PartialEq, Eq, Structural, Debug)]
pub enum HttpMethod {
    Get,
    Post,
}

/// The request method's wire name.
pub fn method_name(m: HttpMethod) -> (s: &'static str)
    ensures
        m == HttpMethod::Get ==> s@ == "GET"@,
        m == HttpMethod::Post ==> s@ == "POST"@,
{
    match m {
        HttpMethod::Get => "GET",
        HttpMethod::Post => "POST",
    }
}

/// The named benchmark scenarios, in the order the full suite runs them.
#[derive(Clone, Copy, PartialEq, Eq, Structural, Debug)]
pub enum ScenarioKind {
    Health,
    Rest,
    Graphql,
}

/// One benchmark scenario: which endpoint is exercised, how, and with
/// which default load.
#[derive(Clone, Debug)]
pub struct Scenario {
    pub endpoint_label: String,
    pub path: String,
    pub method: HttpMethod,
    pub body: Option<String>,
    pub default_concurrency: usize,
    pub default_total_requests: usize,
}

/// One service under test: its human label for the result table and the
/// base URL its endpoints hang under.
#[derive(Clone, Debug)]
pub struct Target {
    pub framework: String,
    pub base_url: String,
}

/// Everything one load-generator invocation needs: the full URL, the
/// method, the optional JSON body, and how the budget is driven.
#[derive(Clone, Debug)]
pub struct BenchmarkRequest {
    pub url: String,
    pub method: HttpMethod,
    pub body: Option<String>,
    pub concurrency: usize,
    pub total_requests: usize,
}

/// The fixed configuration of each named scenario: the health check is a
/// plain GET with a heavy default load, the REST scenario posts a fixed
/// sample product, and the GraphQL scenario posts a fixed product query.
pub fn scenario_config(kind: ScenarioKind) -> (s: Scenario)
    ensures
        s.default_concurrency > 0,
        s.default_total_requests > 0,
        kind == ScenarioKind::Health ==> s.endpoint_label@ == "Health Check"@ && s.path@
            == "/health"@ && s.method == HttpMethod::Get && s.body is None
            && s.default_concurrency == 100 && s.default_total_requests == 1000,
        kind == ScenarioKind::Rest ==> s.endpoint_label@ == "Create Product"@ && s.path@
            == "/api/products"@ && s.method == HttpMethod::Post && (s.body matches Some(b)
            && b@
            == "{\"name\":\"Test Product\",\"description\":\"A test product for benchmarking\",\"price\":1999,\"inventory\":100}"@)
            && s.default_concurrency == 50 && s.default_total_requests == 500,
        kind == ScenarioKind::Graphql ==> s.endpoint_label@ == "GraphQL Query"@ && s.path@
            == "/graphql"@ && s.method == HttpMethod::Post && (s.body matches Some(b) && b@
            == "{\"query\":\"{ products { id name price inventory } }\"}"@)
            && s.default_concurrency == 30 && s.default_total_requests == 300,
{
    match kind {
        ScenarioKind::Health => Scenario {
            endpoint_label: String::from_str("Health Check"),
            path: String::from_str("/health"),
            method: HttpMethod::Get,
            body: None,
            default_concurrency: 100,
            default_total_requests: 1000,
        },
        ScenarioKind::Rest => Scenario {
            endpoint_label: String::from_str("Create Product"),
            path: String::from_str("/api/products"),
            method: HttpMethod::Post,
            body: Some(
                String::from_str(
                    "{\"name\":\"Test Product\",\"description\":\"A test product for benchmarking\",\"price\":1999,\"inventory\":100}",
                ),
            ),
            default_concurrency: 50,
            default_total_requests: 500,
        },
        ScenarioKind::Graphql => Scenario {
            endpoint_label: String::from_str("GraphQL Query"),
            path: String::from_str("/graphql"),
            method: HttpMethod::Post,
            body: Some(
                String::from_str("{\"query\":\"{ products { id name price inventory } }\"}"),
            ),
            default_concurrency: 30,
            default_total_requests: 300,
        },
    }
}

/// The full suite, in its fixed order: the health check first, then the
/// REST scenario, then the GraphQL scenario.
pub fn all_scenario_kinds() -> (v: Vec<ScenarioKind>)
    ensures
        v@.len() == 3,
        v@[0] == ScenarioKind::Health,
        v@[1] == ScenarioKind::Rest,
        v@[2] == ScenarioKind::Graphql,
{
    let mut v: Vec<ScenarioKind> = Vec::new();
    v.push(ScenarioKind::Health);
    v.push(ScenarioKind::Rest);
    v.push(ScenarioKind::Graphql);
    v
}

/// The two services under test, in the order they are benchmarked and
/// listed in every result table.
pub fn default_targets() -> (v: Vec<Target>)
    ensures
        v@.len() == 2,
        v@[0].framework@ == "Axum"@,
        v@[0].base_url@ == "http://localhost:3000"@,
        v@[1].framework@ == "ActixWeb"@,
        v@[1].base_url@ == "http://localhost:3001"@,
{
    let mut v: Vec<Target> = Vec::new();
    v.push(
        Target {
            framework: String::from_str("Axum"),
            base_url: String::from_str("http://localhost:3000"),
        },
    );
    v.push(
        Target {
            framework: String::from_str("ActixWeb"),
            base_url: String::from_str("http://localhost:3001"),
        },
    );
    v
}

/// Builds the load-generator invocation for one (target, scenario) pair:
/// the same method, body and load on both targets, only the URL and the
/// table label differ.
pub fn build_request(
    target: &Target,
    scenario: &Scenario,
    concurrency: usize,
    total_requests: usize,
) -> (r: BenchmarkRequest)
    ensures
        r.url@ == target.base_url@ + scenario.path@,
        r.method == scenario.method,
        scenario.body matches Some(sb) ==> (r.body matches Some(b) && b@ == sb@),
        scenario.body is None ==> r.body is None,
        r.concurrency == concurrency,
        r.total_requests == total_requests,
{
    let url = target.base_url.clone().concat(scenario.path.as_str());
    let body: Option<String> = match &scenario.body {
        Some(b) => Some(b.clone()),
        None => None,
    };
    BenchmarkRequest { url, method: scenario.method, body, concurrency, total_requests }
}

/// The health-probe URL of one target.
pub fn health_url(target: &Target) -> (u: String)
    ensures
        u@ == target.base_url@ + "/health"@,
{
    target.base_url.clone().concat("/health")
}

} // verus!
