use std::collections::HashMap;
use vstd::prelude::*;
use vstd::std_specs::hash::group_hash_axioms;

use crate::model::Crate;

verus! {

broadcast use group_hash_axioms;

/// The transient in-memory store of crates, keyed by crate id.
/// Every stored crate sits under its own id.
#[derive(Clone)]
pub struct Database {
    crates: HashMap<i32, Crate>,
}

impl View for Database {
    type V = Map<i32, Crate>;

    closed spec fn view(&self) -> Map<i32, Crate> {
        self.crates@
    }
}

impl Database {
    /// Each crate of the store is kept under its own id.
    pub open spec fn wf(&self) -> bool {
        forall|id: i32| #[trigger] self@.contains_key(id) ==> self@[id].id == id
    }

    /// The in-memory snapshot: one crate, "serde", under id 1.
    pub fn new() -> (db: Database)
        ensures
            db.wf(),
            forall|id: i32| #[trigger] db@.contains_key(id) <==> id == 1,
            db@[1].name@ == "serde"@,
    {
        let mut crates = HashMap::new();
        let serde = Crate {
            id: 1,
            name: "serde".to_owned(),
            updated_at: chrono::NaiveDateTime::default(),
            created_at: chrono::NaiveDateTime::default(),
            downloads: 0,
            description: None,
            homepage: None,
            documentation: None,
            readme: None,
            repository: None,
            max_upload_size: None,
        };
        crates.insert(1, serde);
        Database { crates }
    }

    /// Looks a crate up by its id.
    pub fn get_crate(&self, id: &i32) -> (r: Option<&Crate>)
        ensures
            r == (if self@.contains_key(*id) {
                Some(&self@[*id])
            } else {
                None
            }),
            self.wf() ==> (r matches Some(c) ==> c.id == *id),
    {
        self.crates.get(id)
    }

    /// Stores a crate under its id, replacing any crate held there before.
    pub fn insert_crate(&mut self, c: Crate)
        requires
            old(self).wf(),
        ensures
            final(self)@ == old(self)@.insert(c.id, c),
            final(self).wf(),
    {
        let id = c.id;
        self.crates.insert(id, c);
    }
}

impl Default for Database {
    fn default() -> (db: Database)
        ensures
            db.wf(),
            forall|id: i32| #[trigger] db@.contains_key(id) <==> id == 1,
            db@[1].name@ == "serde"@,
    {
        Database::new()
    }
}

} // verus!
