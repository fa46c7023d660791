use chrono::{NaiveDate, NaiveDateTime};
use crates_graphql::{
    api_version, cors_policy, crate_by_id, crates, dump_date, graphiql_page, keywords,
    playground_page, route, Crate, Database, HttpMethod, Keyword, Route, GRAPHQL_PATH,
    PAGE_LIMIT,
};

fn stamp() -> NaiveDateTime {
    NaiveDate::from_ymd_opt(2021, 2, 1)
        .unwrap()
        .and_hms_opt(12, 0, 0)
        .unwrap()
}

fn sample_crate(id: i32, name: &str) -> Crate {
    Crate {
        id,
        name: name.to_string(),
        updated_at: stamp(),
        created_at: stamp(),
        downloads: 42,
        description: Some(format!("the {} crate", name)),
        homepage: None,
        documentation: None,
        readme: None,
        repository: None,
        max_upload_size: None,
    }
}

fn sample_keyword(id: i32) -> Keyword {
    Keyword {
        id,
        keyword: format!("kw{}", id),
        crates_cnt: id,
        created_at: stamp(),
    }
}

#[test]
fn api_version_is_one_point_zero() {
    assert_eq!(api_version(), "1.0");
}

#[test]
fn dump_date_is_fixed() {
    assert_eq!(dump_date(), "2021-02-01");
}

#[test]
fn crate_lookup_finds_serde_and_not_999() {
    let db = Database::new();
    let found = crate_by_id(&db, 1, None).expect("crate 1 is in the snapshot");
    assert_eq!(found.name, "serde");
    assert_eq!(found.id, 1);
    assert!(crate_by_id(&db, 999, None).is_none());
}

#[test]
fn crate_lookup_ignores_name() {
    let db = Database::new();
    let found = crate_by_id(&db, 1, Some("tokio".to_string())).unwrap();
    assert_eq!(found.name, "serde");
    assert!(crate_by_id(&db, 2, Some("serde".to_string())).is_none());
}

#[test]
fn crate_lookup_after_insert() {
    let mut db = Database::new();
    db.insert_crate(sample_crate(2, "rand"));
    assert_eq!(crate_by_id(&db, 2, None).unwrap().name, "rand");
    assert_eq!(crate_by_id(&db, 1, None).unwrap().name, "serde");
    assert!(crate_by_id(&db, 3, None).is_none());
}

#[test]
fn new_database_holds_serde_only() {
    let db = Database::new();
    assert_eq!(db.get_crate(&1).unwrap().name, "serde");
    assert!(db.get_crate(&0).is_none());
    assert!(db.get_crate(&2).is_none());
    let db = Database::default();
    assert_eq!(db.get_crate(&1).unwrap().name, "serde");
    assert!(db.get_crate(&999).is_none());
}

#[test]
fn insert_replaces_same_id() {
    let mut db = Database::new();
    db.insert_crate(sample_crate(7, "old"));
    db.insert_crate(sample_crate(7, "new"));
    assert_eq!(db.get_crate(&7).unwrap().name, "new");
    let copy = db.clone();
    assert_eq!(copy.get_crate(&7).unwrap().name, "new");
}

#[test]
fn crates_keeps_first_hundred_in_order() {
    let rows: Vec<Crate> = (0..150).map(|i| sample_crate(i, "c")).collect();
    let page = crates(rows);
    assert_eq!(page.len(), 100);
    assert_eq!(PAGE_LIMIT, 100);
    for (i, c) in page.iter().enumerate() {
        assert_eq!(c.id, i as i32);
    }
}

#[test]
fn crates_never_more_than_store() {
    let rows: Vec<Crate> = (0..3).map(|i| sample_crate(i, "c")).collect();
    let page = crates(rows);
    assert_eq!(page.len(), 3);
    assert!(crates(Vec::new()).is_empty());
    let rows: Vec<Crate> = (0..100).map(|i| sample_crate(i, "c")).collect();
    assert_eq!(crates(rows).len(), 100);
}

#[test]
fn keywords_keeps_at_most_hundred() {
    let rows: Vec<Keyword> = (0..250).map(sample_keyword).collect();
    let page = keywords(rows);
    assert_eq!(page.len(), 100);
    assert_eq!(page[99].keyword, "kw99");
    let rows: Vec<Keyword> = (0..5).map(sample_keyword).collect();
    assert_eq!(keywords(rows).len(), 5);
}

#[test]
fn playground_page_points_at_query_path() {
    let html = playground_page();
    assert!(html.contains("/graphgl"));
    assert!(html.contains("Playground"));
    assert_ne!(html, GRAPHQL_PATH);
}

#[test]
fn graphiql_page_points_at_query_path() {
    let html = graphiql_page();
    assert!(html.contains("/graphgl"));
    assert!(html.contains("GraphiQL"));
    assert_ne!(html, GRAPHQL_PATH);
}

#[test]
fn routes_match_the_table() {
    assert_eq!(route(HttpMethod::Post, "/graphgl"), Route::Graphql);
    assert_eq!(route(HttpMethod::Get, "/graphgl"), Route::Graphql);
    assert_eq!(route(HttpMethod::Other, "/graphgl"), Route::MethodNotAllowed);
    assert_eq!(route(HttpMethod::Get, "/playground"), Route::Playground);
    assert_eq!(route(HttpMethod::Post, "/playground"), Route::MethodNotAllowed);
    assert_eq!(route(HttpMethod::Get, "/graphiql"), Route::Graphiql);
    assert_eq!(route(HttpMethod::Post, "/graphiql"), Route::MethodNotAllowed);
    assert_eq!(route(HttpMethod::Get, "/graphql"), Route::NotFound);
    assert_eq!(route(HttpMethod::Get, ""), Route::NotFound);
}

#[test]
fn cors_policy_is_local_only() {
    let p = cors_policy();
    assert_eq!(
        p.allowed_origins,
        vec!["http://127.0.0.1:8080".to_string(), "http://localhost:8080".to_string()]
    );
    assert_eq!(p.allowed_methods, vec![HttpMethod::Post, HttpMethod::Get]);
    assert_eq!(p.allowed_headers, vec!["authorization", "accept", "content-type"]);
    assert!(p.supports_credentials);
    assert_eq!(p.max_age, 3600);
}
