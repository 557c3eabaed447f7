//! The request handlers: one per operation, each translating its input into
//! a gateway call and the gateway's outcome into a response or an error.
//! Each handler's outcome is pinned by a spec function of the store's model,
//! so that what a client sees is a function of the store state alone.

use vstd::prelude::*;

use crate::error::PizzaError;
use crate::models::{BuyPizzaRequest, Pizza, PizzaModel, UpdatePizzaURL};
use crate::store::{contains_uuid, index_of_uuid, pizzas_view, store_wf, Database};

verus! {

/// One character of a lowercase hexadecimal encoding.
pub open spec fn is_lower_hex_digit(c: char) -> bool {
    ('0' as u32 <= c as u32 && c as u32 <= '9' as u32) || ('a' as u32 <= c as u32 && c as u32
        <= 'f' as u32)
}

/// The shape of every server-assigned identifier: thirty-two lowercase
/// hexadecimal characters, the textual form of a 128-bit value.
pub open spec fn valid_pizza_id(id: Seq<char>) -> bool {
    &&& id.len() == 32
    &&& forall|i: int| 0 <= i < id.len() ==> is_lower_hex_digit(#[trigger] id[i])
}

/// Relies on uuid: `Uuid::new_v4` draws a random 128-bit value and
/// `Simple::encode_lower` writes it into a buffer of `Uuid::encode_buffer`'s
/// size as exactly thirty-two lowercase hexadecimal characters. The value is
/// random, so nothing relates one call to another; only the shape of the
/// returned text is stated.
#[verifier::external_body]
fn generate_pizza_id() -> (r: String)
    ensures
        valid_pizza_id(r@),
{
    let mut buffer = uuid::Uuid::encode_buffer();
    let new_uuid = uuid::Uuid::new_v4().simple().encode_lower(&mut buffer);
    String::from(new_uuid)
}

/// The outcome the list operation owes for a given store state: the whole
/// store, in order, when it holds records; `NoPizzasFound` when it is empty —
/// an empty store is reported as an error, never as an empty array.
pub open spec fn list_outcome(s: Seq<PizzaModel>) -> Result<Seq<PizzaModel>, PizzaError> {
    if s.len() == 0 {
        Err(PizzaError::NoPizzasFound)
    } else {
        Ok(s)
    }
}

/// Lists every pizza the store holds.
pub fn get_pizzas(db: &Database) -> (r: Result<Vec<Pizza>, PizzaError>)
    ensures
        r is Ok <==> list_outcome(db@) is Ok,
        r is Ok ==> pizzas_view(r->Ok_0@) == list_outcome(db@)->Ok_0,
        r is Err ==> r->Err_0 == list_outcome(db@)->Err_0,
{
    let pizzas = db.get_all_pizzas();
    match pizzas {
        Some(found_pizzas) => Ok(found_pizzas),
        None => Err(PizzaError::NoPizzasFound),
    }
}

/// The outcome the delete operation owes for a given store state and
/// identifier: the record carrying the identifier leaves the store and is
/// returned; when no record carries it, `NoSuchPizzaFound` and the store as
/// it was.
pub open spec fn delete_outcome(s: Seq<PizzaModel>, id: Seq<char>) -> (Result<
    PizzaModel,
    PizzaError,
>, Seq<PizzaModel>) {
    if contains_uuid(s, id) {
        (Ok(s[index_of_uuid(s, id)]), s.remove(index_of_uuid(s, id)))
    } else {
        (Err(PizzaError::NoSuchPizzaFound), s)
    }
}

/// The outcome the update operation owes for a given store state and
/// identifier: the record carrying the identifier, as the gateway left it;
/// when no record carries it, `NoSuchPizzaFound`. The handler supplies no new
/// field values, so the store is never changed by it.
pub open spec fn update_outcome(s: Seq<PizzaModel>, id: Seq<char>) -> Result<
    PizzaModel,
    PizzaError,
> {
    if contains_uuid(s, id) {
        Ok(s[index_of_uuid(s, id)])
    } else {
        Err(PizzaError::NoSuchPizzaFound)
    }
}

/// Creates one pizza under a caller-supplied identifier: checks the request,
/// then asks the gateway to insert. Fails exactly when the request's name is
/// empty or when some record already carries the identifier.
pub fn buy_pizza_with_id(db: &mut Database, body: BuyPizzaRequest, new_uuid: String) -> (r: Result<
    Pizza,
    PizzaError,
>)
    requires
        store_wf(old(db)@),
    ensures
        store_wf(final(db)@),
        r is Err ==> {
            &&& r->Err_0 == PizzaError::PizzaCreationFailure
            &&& final(db)@ == old(db)@
        },
        r is Err <==> (!body.valid() || contains_uuid(old(db)@, new_uuid@)),
        r is Ok ==> {
            &&& r->Ok_0@.uuid == new_uuid@
            &&& r->Ok_0@.pizza_name == body.pizza_name@
            &&& final(db)@ == old(db)@.push(r->Ok_0@)
        },
{
    let is_valid = body.validate();
    if is_valid {
        let pizza_name = body.pizza_name.clone();
        let new_pizza = db.add_pizza(Pizza::new(new_uuid, pizza_name));
        match new_pizza {
            Some(created) => Ok(created),
            None => Err(PizzaError::PizzaCreationFailure),
        }
    } else {
        Err(PizzaError::PizzaCreationFailure)
    }
}

/// Creates one pizza: checks the request, draws a fresh random identifier,
/// and asks the gateway to insert. The identifier is drawn before the insert
/// and never derived from the input. Success is owed unless the fresh
/// identifier collides with one the store already holds; on any failure the
/// store is unchanged and the error is `PizzaCreationFailure`.
pub fn buy_pizza(db: &mut Database, body: BuyPizzaRequest) -> (r: Result<Pizza, PizzaError>)
    requires
        store_wf(old(db)@),
    ensures
        store_wf(final(db)@),
        !body.valid() ==> r is Err,
        r is Err ==> {
            &&& r->Err_0 == PizzaError::PizzaCreationFailure
            &&& final(db)@ == old(db)@
        },
        r is Err ==> (!body.valid() || exists|i: int|
            0 <= i < old(db)@.len() && valid_pizza_id(#[trigger] old(db)@[i].uuid)),
        r is Ok ==> {
            &&& body.valid()
            &&& r->Ok_0@.pizza_name == body.pizza_name@
            &&& valid_pizza_id(r->Ok_0@.uuid)
            &&& !contains_uuid(old(db)@, r->Ok_0@.uuid)
            &&& final(db)@ == old(db)@.push(r->Ok_0@)
        },
{
    let new_uuid = generate_pizza_id();
    buy_pizza_with_id(db, body, new_uuid)
}

/// Updates the pizza the identifier addresses.
pub fn update_pizza(db: &Database, update_pizza_url: UpdatePizzaURL) -> (r: Result<
    Pizza,
    PizzaError,
>)
    requires
        store_wf(db@),
    ensures
        r is Ok <==> update_outcome(db@, update_pizza_url.uuid@) is Ok,
        r is Ok ==> r->Ok_0@ == update_outcome(db@, update_pizza_url.uuid@)->Ok_0,
        r is Err ==> r->Err_0 == update_outcome(db@, update_pizza_url.uuid@)->Err_0,
{
    let uuid = update_pizza_url.uuid;
    let update_result = db.update_pizza(uuid);
    match update_result {
        Some(updated_pizza) => Ok(updated_pizza),
        None => Err(PizzaError::NoSuchPizzaFound),
    }
}

/// Deletes the pizza the identifier addresses.
pub fn delete_pizza(db: &mut Database, delete_pizza_url: UpdatePizzaURL) -> (r: Result<
    Pizza,
    PizzaError,
>)
    requires
        store_wf(old(db)@),
    ensures
        store_wf(final(db)@),
        r is Ok <==> delete_outcome(old(db)@, delete_pizza_url.uuid@).0 is Ok,
        r is Ok ==> r->Ok_0@ == delete_outcome(old(db)@, delete_pizza_url.uuid@).0->Ok_0,
        r is Err ==> r->Err_0 == delete_outcome(old(db)@, delete_pizza_url.uuid@).0->Err_0,
        final(db)@ == delete_outcome(old(db)@, delete_pizza_url.uuid@).1,
{
    let uuid = delete_pizza_url.uuid;
    let delete_result = db.delete_pizza(uuid);
    match delete_result {
        Some(deleted_pizza) => Ok(deleted_pizza),
        None => Err(PizzaError::NoSuchPizzaFound),
    }
}

} // verus!
