//! Laws relating the handlers' outcomes across calls and store states.

use vstd::prelude::*;

use crate::error::PizzaError;
use crate::handlers::{delete_outcome, list_outcome, update_outcome};
use crate::models::PizzaModel;
use crate::store::{contains_uuid, index_of_uuid, store_wf};

verus! {

/// Listing is idempotent: repeated list calls with no intervening write see
/// the same store state, and the outcome — the records and their order, or
/// the error — is a function of that state alone.
pub proof fn lemma_get_pizzas_idempotent(s1: Seq<PizzaModel>, s2: Seq<PizzaModel>)
    requires
        s1 == s2,
    ensures
        list_outcome(s1) == list_outcome(s2),
{
}

/// After a successful delete no record carries the deleted identifier any
/// longer: in a well-formed store exactly one record carried it, and that
/// record left.
pub proof fn lemma_delete_removes_uuid(s: Seq<PizzaModel>, id: Seq<char>)
    requires
        store_wf(s),
        contains_uuid(s, id),
    ensures
        !contains_uuid(delete_outcome(s, id).1, id),
{
    let i = index_of_uuid(s, id);
    assert(0 <= i < s.len() && s[i].uuid == id);
    let t = s.remove(i);
    assert forall|j: int| 0 <= j < t.len() implies t[j].uuid != id by {
        let sj: int = if j < i {
            j
        } else {
            j + 1
        };
        assert(t[j] == s[sj]);
        if sj < i {
            assert(s[sj].uuid != s[i].uuid);
        } else {
            assert(s[i].uuid != s[sj].uuid);
        }
    }
}

/// Delete is not idempotent: deleting an identifier the store holds succeeds
/// once; deleting it again yields `NoSuchPizzaFound` and leaves the store as
/// the first delete left it.
pub proof fn lemma_delete_not_idempotent(s: Seq<PizzaModel>, id: Seq<char>)
    requires
        store_wf(s),
        contains_uuid(s, id),
    ensures
        delete_outcome(s, id).0 is Ok,
        delete_outcome(delete_outcome(s, id).1, id).0 == Err::<PizzaModel, PizzaError>(
            PizzaError::NoSuchPizzaFound,
        ),
        delete_outcome(delete_outcome(s, id).1, id).1 == delete_outcome(s, id).1,
{
    lemma_delete_removes_uuid(s, id);
}

/// Update and delete on an identifier no record carries — in particular on
/// one never created — always yield `NoSuchPizzaFound`, and delete leaves the
/// store as it is.
pub proof fn lemma_unknown_uuid_not_found(s: Seq<PizzaModel>, id: Seq<char>)
    requires
        !contains_uuid(s, id),
    ensures
        update_outcome(s, id) == Err::<PizzaModel, PizzaError>(PizzaError::NoSuchPizzaFound),
        delete_outcome(s, id).0 == Err::<PizzaModel, PizzaError>(PizzaError::NoSuchPizzaFound),
        delete_outcome(s, id).1 == s,
{
}

} // verus!
