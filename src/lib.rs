//! A read-only GraphQL facade over a package-registry schema: the records it
//! serves, the in-memory store, the query resolvers and the front door's
//! fixed configuration.

mod database;
mod front_door;
mod model;
mod query;

pub use database::Database;
pub use front_door::{
    contains_text, cors_policy, graphiql_html_of, graphiql_page, playground_html_of,
    playground_page, route, route_of, texts, CorsPolicy, HttpMethod, Route, BIND_ADDRESS,
    CORS_MAX_AGE, GRAPHIQL_PATH, GRAPHQL_PATH, PLAYGROUND_PATH,
};
pub use model::{Crate, Keyword};
pub use query::{
    api_version, crate_by_id, crates, dump_date, keywords, page_len, page_of, PAGE_LIMIT,
};
