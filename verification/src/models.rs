//! The entity model: the pizza record and the two transient request shapes.

use vstd::prelude::*;

verus! {

/// The mathematical value of a pizza record: its identifier and its name,
/// each as a sequence of characters.
pub struct PizzaModel {
    pub uuid: Seq<char>,
    pub pizza_name: Seq<char>,
}

/// A persisted pizza record. The identifier is assigned by the server at
/// creation time and is never chosen by a client.
pub struct Pizza {
    pub uuid: String,
    pub pizza_name: String,
}

impl View for Pizza {
    type V = PizzaModel;

    open spec fn view(&self) -> PizzaModel {
        PizzaModel { uuid: self.uuid@, pizza_name: self.pizza_name@ }
    }
}

impl Clone for Pizza {
    fn clone(&self) -> (r: Self)
        ensures
            r == *self,
    {
        Pizza { uuid: self.uuid.clone(), pizza_name: self.pizza_name.clone() }
    }
}

impl Pizza {
    /// Builds a record from an identifier and a name.
    pub fn new(uuid: String, pizza_name: String) -> (r: Pizza)
        ensures
            r@.uuid == uuid@,
            r@.pizza_name == pizza_name@,
    {
        Pizza { uuid, pizza_name }
    }
}

/// The body of a create request: the name the new pizza shall carry.
pub struct BuyPizzaRequest {
    pub pizza_name: String,
}

impl BuyPizzaRequest {
    /// A create request is valid when its name is non-empty.
    pub open spec fn valid(&self) -> bool {
        self.pizza_name@.len() >= 1
    }

    /// Checks the request: the name must have length at least one.
    pub fn validate(&self) -> (r: bool)
        ensures
            r == self.valid(),
    {
        !self.pizza_name.as_str().is_empty()
    }
}

/// The path parameter addressing an existing pizza for update or delete.
pub struct UpdatePizzaURL {
    pub uuid: String,
}

} // verus!
