//! The persistence gateway: an in-memory store of pizza records, kept in
//! insertion order. Every record carries a distinct identifier; each
//! operation signals failure with `None`, never by panicking.

use vstd::prelude::*;

use crate::models::{Pizza, PizzaModel};

verus! {

/// The model of a sequence of records.
pub open spec fn pizzas_view(v: Seq<Pizza>) -> Seq<PizzaModel> {
    v.map(|i: int, p: Pizza| p@)
}

/// Whether some record of the store carries the given identifier.
pub open spec fn contains_uuid(s: Seq<PizzaModel>, id: Seq<char>) -> bool {
    exists|i: int| 0 <= i < s.len() && s[i].uuid == id
}

/// The position of the record carrying the given identifier.
pub open spec fn index_of_uuid(s: Seq<PizzaModel>, id: Seq<char>) -> int {
    choose|i: int| 0 <= i < s.len() && s[i].uuid == id
}

/// Well-formedness of a store: identifiers are pairwise distinct.
pub open spec fn store_wf(s: Seq<PizzaModel>) -> bool {
    forall|i: int, j: int| 0 <= i < j < s.len() ==> s[i].uuid != s[j].uuid
}

/// In a well-formed store the record carrying an identifier sits at one
/// position only, so `index_of_uuid` names exactly the position found.
pub proof fn lemma_index_of_uuid_unique(s: Seq<PizzaModel>, id: Seq<char>, i: int)
    requires
        store_wf(s),
        0 <= i < s.len(),
        s[i].uuid == id,
    ensures
        contains_uuid(s, id),
        index_of_uuid(s, id) == i,
{
    assert(contains_uuid(s, id));
    let j = index_of_uuid(s, id);
    if i < j {
        assert(s[i].uuid != s[j].uuid);
    } else if j < i {
        assert(s[j].uuid != s[i].uuid);
    }
}

/// The in-memory persistence gateway.
pub struct Database {
    pizzas: Vec<Pizza>,
}

impl View for Database {
    type V = Seq<PizzaModel>;

    closed spec fn view(&self) -> Seq<PizzaModel> {
        pizzas_view(self.pizzas@)
    }
}

impl Database {
    /// A fresh store holding no records.
    pub fn init() -> (r: Database)
        ensures
            r@ == Seq::<PizzaModel>::empty(),
            store_wf(r@),
    {
        let db = Database { pizzas: Vec::new() };
        proof {
            assert(db@ =~= Seq::<PizzaModel>::empty());
        }
        db
    }

    /// The position of the record carrying `uuid`, if any record does.
    fn find_index(&self, uuid: &String) -> (r: Option<usize>)
        ensures
            match r {
                Some(i) => i < self@.len() && self@[i as int].uuid == uuid@,
                None => !contains_uuid(self@, uuid@),
            },
    {
        let mut i: usize = 0;
        while i < self.pizzas.len()
            invariant
                i <= self.pizzas.len(),
                forall|j: int| 0 <= j < i ==> self@[j].uuid != uuid@,
            decreases self.pizzas.len() - i,
        {
            if self.pizzas[i].uuid == *uuid {
                return Some(i);
            }
            i += 1;
        }
        None
    }

    /// Lists every record, in insertion order; `None` when the store is
    /// empty.
    pub fn get_all_pizzas(&self) -> (r: Option<Vec<Pizza>>)
        ensures
            r is None <==> self@.len() == 0,
            r is Some ==> pizzas_view(r->0@) == self@,
    {
        if self.pizzas.len() == 0 {
            None
        } else {
            let mut found: Vec<Pizza> = Vec::new();
            let mut i: usize = 0;
            while i < self.pizzas.len()
                invariant
                    i <= self.pizzas.len(),
                    found@.len() == i,
                    forall|j: int| 0 <= j < i ==> found@[j] == self.pizzas@[j],
                decreases self.pizzas.len() - i,
            {
                found.push(self.pizzas[i].clone());
                i += 1;
            }
            proof {
                assert(pizzas_view(found@) =~= self@);
            }
            Some(found)
        }
    }

    /// Inserts one record and returns it; `None`, with the store unchanged,
    /// when some record already carries the same identifier.
    pub fn add_pizza(&mut self, new_pizza: Pizza) -> (r: Option<Pizza>)
        ensures
            contains_uuid(old(self)@, new_pizza@.uuid) ==> {
                &&& r is None
                &&& final(self)@ == old(self)@
            },
            !contains_uuid(old(self)@, new_pizza@.uuid) ==> {
                &&& r is Some
                &&& r->0@ == new_pizza@
                &&& final(self)@ == old(self)@.push(new_pizza@)
            },
            store_wf(old(self)@) ==> store_wf(final(self)@),
    {
        match self.find_index(&new_pizza.uuid) {
            Some(_) => None,
            None => {
                let created = new_pizza.clone();
                self.pizzas.push(new_pizza);
                proof {
                    assert(self@ =~= old(self)@.push(created@));
                }
                Some(created)
            }
        }
    }

    /// Returns the record carrying `uuid` as the gateway left it after the
    /// update; `None` when no record does. The handler supplies no new field
    /// values, so this gateway's update leaves the record as it stands.
    pub fn update_pizza(&self, uuid: String) -> (r: Option<Pizza>)
        requires
            store_wf(self@),
        ensures
            contains_uuid(self@, uuid@) ==> {
                &&& r is Some
                &&& r->0@ == self@[index_of_uuid(self@, uuid@)]
            },
            !contains_uuid(self@, uuid@) ==> r is None,
    {
        match self.find_index(&uuid) {
            Some(i) => {
                proof {
                    lemma_index_of_uuid_unique(self@, uuid@, i as int);
                }
                Some(self.pizzas[i].clone())
            }
            None => None,
        }
    }

    /// Removes the record carrying `uuid` and returns its last-known value;
    /// `None`, with the store unchanged, when no record does.
    pub fn delete_pizza(&mut self, uuid: String) -> (r: Option<Pizza>)
        requires
            store_wf(old(self)@),
        ensures
            contains_uuid(old(self)@, uuid@) ==> {
                &&& r is Some
                &&& r->0@ == old(self)@[index_of_uuid(old(self)@, uuid@)]
                &&& final(self)@ == old(self)@.remove(index_of_uuid(old(self)@, uuid@))
            },
            !contains_uuid(old(self)@, uuid@) ==> {
                &&& r is None
                &&& final(self)@ == old(self)@
            },
            store_wf(final(self)@),
    {
        match self.find_index(&uuid) {
            Some(i) => {
                proof {
                    lemma_index_of_uuid_unique(old(self)@, uuid@, i as int);
                }
                let removed = self.pizzas.remove(i);
                proof {
                    assert(self@ =~= old(self)@.remove(i as int));
                    assert forall|a: int, b: int| 0 <= a < b < self@.len()
                        implies self@[a].uuid != self@[b].uuid by {
                        let s = old(self)@;
                        let ia: int = if a < i { a } else { a + 1 };
                        let ib: int = if b < i { b } else { b + 1 };
                        assert(self@[a] == s[ia]);
                        assert(self@[b] == s[ib]);
                    }
                }
                Some(removed)
            }
            None => None,
        }
    }
}

} // verus!
