use vstd::prelude::*;

verus! {

/// A timestamp without a time zone, as the relational store keeps it.
/// The library carries it through and never reads inside it.
#[verifier::external_type_specification]
#[verifier::external_body]
pub struct ExNaiveDateTime(chrono::NaiveDateTime);

/// Relies on chrono's derived `Clone` for `NaiveDateTime`, a `Copy` type:
/// the clone is the same value.
pub assume_specification[ <chrono::NaiveDateTime as Clone>::clone ](
    dt: &chrono::NaiveDateTime,
) -> (r: chrono::NaiveDateTime)
    ensures
        r == *dt,
;

/// Relies on chrono's `Default` for `NaiveDateTime`, which gives a fixed
/// moment; the library only stores it.
pub assume_specification[ <chrono::NaiveDateTime as Default>::default ]() -> chrono::NaiveDateTime;

/// A published package record.
#[derive(Clone)]
pub struct Crate {
    pub id: i32,
    pub name: String,
    pub updated_at: chrono::NaiveDateTime,
    pub created_at: chrono::NaiveDateTime,
    pub downloads: i32,
    pub description: Option<String>,
    pub homepage: Option<String>,
    pub documentation: Option<String>,
    pub readme: Option<String>,
    pub repository: Option<String>,
    pub max_upload_size: Option<i32>,
}

/// A keyword that crates are tagged with.
#[derive(Clone)]
pub struct Keyword {
    pub id: i32,
    pub keyword: String,
    pub crates_cnt: i32,
    pub created_at: chrono::NaiveDateTime,
}

} // verus!
