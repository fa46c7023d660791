use vstd::prelude::*;

use crate::database::Database;
use crate::model::{Crate, Keyword};

verus! {

/// The most rows that a list query hands back.
pub const PAGE_LIMIT: usize = 100;

/// How many of `n` rows a list query keeps.
pub open spec fn page_len(n: nat) -> nat {
    if n <= PAGE_LIMIT {
        n
    } else {
        PAGE_LIMIT as nat
    }
}

/// The rows that a list query keeps, in the order the store gave them.
pub open spec fn page_of<T>(rows: Seq<T>) -> Seq<T> {
    rows.take(page_len(rows.len()) as int)
}

/// The version of the API.
pub fn api_version() -> (r: String)
    ensures
        r@ == "1.0"@,
{
    "1.0".to_owned()
}

/// The date of the data dump that the store was loaded from.
pub fn dump_date() -> (r: String)
    ensures
        r@ == "2021-02-01"@,
{
    "2021-02-01".to_owned()
}

/// The `crate` field: looks the crate up by id alone; the name, when given,
/// plays no part.
pub fn crate_by_id<'a>(database: &'a Database, id: i32, _name: Option<String>) -> (r: Option<
    &'a Crate,
>)
    ensures
        r == (if database@.contains_key(id) {
            Some(&database@[id])
        } else {
            None
        }),
        database.wf() ==> (r matches Some(c) ==> c.id == id),
{
    database.get_crate(&id)
}

/// Keeps the first `PAGE_LIMIT` rows, in order.
fn first_page<T>(rows: Vec<T>) -> (r: Vec<T>)
    ensures
        r@ == page_of(rows@),
{
    let mut rows = rows;
    rows.truncate(PAGE_LIMIT);
    rows
}

/// The `crates` field: of the crates that the store returned, the first
/// `PAGE_LIMIT`, in store order.
pub fn crates(loaded: Vec<Crate>) -> (r: Vec<Crate>)
    ensures
        r@ == page_of(loaded@),
        r@.len() <= PAGE_LIMIT,
        r@.len() <= loaded@.len(),
{
    first_page(loaded)
}

/// The `keywords` field: of the keywords that the store returned, the first
/// `PAGE_LIMIT`, in store order.
pub fn keywords(loaded: Vec<Keyword>) -> (r: Vec<Keyword>)
    ensures
        r@ == page_of(loaded@),
        r@.len() <= PAGE_LIMIT,
        r@.len() <= loaded@.len(),
{
    first_page(loaded)
}

} // verus!
