use vstd::prelude::*;

verus! {

/// Where GraphQL queries are executed. The spelling is the one that clients
/// of this service already use.
pub const GRAPHQL_PATH: &'static str = "/graphgl";

/// Where the GraphQL Playground page is served.
pub const PLAYGROUND_PATH: &'static str = "/playground";

/// Where the GraphiQL page is served.
pub const GRAPHIQL_PATH: &'static str = "/graphiql";

/// The address that the one listener binds.
pub const BIND_ADDRESS: &'static str = "127.0.0.1:8080";

/// How long, in seconds, a browser may cache a CORS preflight answer.
pub const CORS_MAX_AGE: usize = 3600;

/// The request methods that the front door tells apart.
#[derive(PartialEq, Eq, Structural, Clone, Copy, Debug)]
pub enum HttpMethod {
    Get,
    Post,
    Other,
}

/// What the front door does with a request.
#[derive(PartialEq, Eq, Structural, Clone, Copy, Debug)]
pub enum Route {
    /// Execute a GraphQL query.
    Graphql,
    /// Serve the Playground page.
    Playground,
    /// Serve the GraphiQL page.
    Graphiql,
    /// The path is known, the method is not served there.
    MethodNotAllowed,
    /// No such path.
    NotFound,
}

/// The route table: GET and POST on the query path, GET on each of the two
/// exploration pages.
pub open spec fn route_of(method: HttpMethod, path: Seq<char>) -> Route {
    if path == GRAPHQL_PATH@ {
        if method == HttpMethod::Get || method == HttpMethod::Post {
            Route::Graphql
        } else {
            Route::MethodNotAllowed
        }
    } else if path == PLAYGROUND_PATH@ {
        if method == HttpMethod::Get {
            Route::Playground
        } else {
            Route::MethodNotAllowed
        }
    } else if path == GRAPHIQL_PATH@ {
        if method == HttpMethod::Get {
            Route::Graphiql
        } else {
            Route::MethodNotAllowed
        }
    } else {
        Route::NotFound
    }
}

fn same_text(a: &str, b: &str) -> (r: bool)
    ensures
        r == (a@ == b@),
{
    let x = a.to_owned();
    let y = b.to_owned();
    x == y
}

/// Decides which handler a request goes to.
pub fn route(method: HttpMethod, path: &str) -> (r: Route)
    ensures
        r == route_of(method, path@),
{
    let is_get = method == HttpMethod::Get;
    if same_text(path, GRAPHQL_PATH) {
        if is_get || method == HttpMethod::Post {
            Route::Graphql
        } else {
            Route::MethodNotAllowed
        }
    } else if same_text(path, PLAYGROUND_PATH) {
        if is_get {
            Route::Playground
        } else {
            Route::MethodNotAllowed
        }
    } else if same_text(path, GRAPHIQL_PATH) {
        if is_get {
            Route::Graphiql
        } else {
            Route::MethodNotAllowed
        }
    } else {
        Route::NotFound
    }
}

/// The cross-origin policy: two local origins, GET and POST, credentials
/// allowed.
pub struct CorsPolicy {
    pub allowed_origins: Vec<String>,
    pub allowed_methods: Vec<HttpMethod>,
    /// Header names, lower case.
    pub allowed_headers: Vec<String>,
    pub supports_credentials: bool,
    pub max_age: usize,
}

/// The text of each string of a sequence.
pub open spec fn texts(v: Seq<String>) -> Seq<Seq<char>> {
    v.map_values(|s: String| s@)
}

/// The front door's cross-origin policy.
pub fn cors_policy() -> (p: CorsPolicy)
    ensures
        texts(p.allowed_origins@) == seq!["http://127.0.0.1:8080"@, "http://localhost:8080"@],
        p.allowed_methods@ == seq![HttpMethod::Post, HttpMethod::Get],
        texts(p.allowed_headers@) == seq!["authorization"@, "accept"@, "content-type"@],
        p.supports_credentials,
        p.max_age == CORS_MAX_AGE,
{
    let allowed_origins = vec![
        "http://127.0.0.1:8080".to_owned(),
        "http://localhost:8080".to_owned(),
    ];
    let allowed_headers = vec![
        "authorization".to_owned(),
        "accept".to_owned(),
        "content-type".to_owned(),
    ];
    assert(texts(allowed_origins@) =~= seq![
        "http://127.0.0.1:8080"@,
        "http://localhost:8080"@,
    ]);
    assert(texts(allowed_headers@) =~= seq!["authorization"@, "accept"@, "content-type"@]);
    CorsPolicy {
        allowed_origins,
        allowed_methods: vec![HttpMethod::Post, HttpMethod::Get],
        allowed_headers,
        supports_credentials: true,
        max_age: CORS_MAX_AGE,
    }
}

/// Whether `t` occurs in `s` as a contiguous run.
pub open spec fn contains_text(s: Seq<char>, t: Seq<char>) -> bool {
    exists|i: int| 0 <= i && i + t.len() <= s.len() && #[trigger] s.subrange(i, i + t.len()) == t
}

/// The GraphiQL page that juniper renders for a query endpoint.
pub uninterp spec fn graphiql_html_of(endpoint: Seq<char>) -> Seq<char>;

/// The Playground page that juniper renders for a query endpoint.
pub uninterp spec fn playground_html_of(endpoint: Seq<char>) -> Seq<char>;

/// Relies on juniper::http::graphiql::graphiql_source, with no subscriptions
/// endpoint: the page depends on the endpoint alone and writes it verbatim
/// into the script that sends the queries.
#[verifier::external_body]
fn graphiql_source(endpoint: &str) -> (r: String)
    ensures
        r@ == graphiql_html_of(endpoint@),
        contains_text(r@, endpoint@),
{
    juniper::http::graphiql::graphiql_source(endpoint, None)
}

/// Relies on juniper::http::playground::playground_source, with no
/// subscriptions endpoint: the page depends on the endpoint alone and writes
/// it verbatim into the Playground's settings.
#[verifier::external_body]
fn playground_source(endpoint: &str) -> (r: String)
    ensures
        r@ == playground_html_of(endpoint@),
        contains_text(r@, endpoint@),
{
    juniper::http::playground::playground_source(endpoint, None)
}

/// The GraphiQL page, pointed at the query path.
pub fn graphiql_page() -> (r: String)
    ensures
        r@ == graphiql_html_of(GRAPHQL_PATH@),
        contains_text(r@, "/graphgl"@),
{
    graphiql_source(GRAPHQL_PATH)
}

/// The Playground page, pointed at the query path.
pub fn playground_page() -> (r: String)
    ensures
        r@ == playground_html_of(GRAPHQL_PATH@),
        contains_text(r@, "/graphgl"@),
{
    playground_source(GRAPHQL_PATH)
}

} // verus!
