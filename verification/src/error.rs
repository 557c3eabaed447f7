//! The failure kinds a handler can report, and their mapping to an HTTP
//! status and a client-facing message. The mapping lives here, in one place,
//! so a later split of the collapsed creation failure stays a local change.

use vstd::prelude::*;

verus! {

/// Every failure a handler reports. Input validation failure and a refused
/// insert both collapse into `PizzaCreationFailure`.
#[derive(Clone, Copy, Debug, PartialEq, Eq, Structural)]
pub enum PizzaError {
    /// The list operation found no records.
    NoPizzasFound,
    /// The create request was invalid, or the store refused the insert.
    PizzaCreationFailure,
    /// Update or delete addressed an identifier no record carries.
    NoSuchPizzaFound,
}

impl PizzaError {
    /// The HTTP status code each failure maps to.
    pub open spec fn spec_status_code(&self) -> u16 {
        match self {
            PizzaError::NoPizzasFound => 404,
            PizzaError::PizzaCreationFailure => 500,
            PizzaError::NoSuchPizzaFound => 404,
        }
    }

    /// The HTTP status code surfaced to the client.
    pub fn status_code(&self) -> (r: u16)
        ensures
            r == self.spec_status_code(),
    {
        match self {
            PizzaError::NoPizzasFound => 404,
            PizzaError::PizzaCreationFailure => 500,
            PizzaError::NoSuchPizzaFound => 404,
        }
    }

    /// The plain-text message surfaced to the client.
    pub fn message(&self) -> (r: String)
        ensures
            *self is NoPizzasFound ==> r@ == "no pizzas found"@,
            *self is PizzaCreationFailure ==> r@ == "pizza creation failure"@,
            *self is NoSuchPizzaFound ==> r@ == "no such pizza found"@,
    {
        match self {
            PizzaError::NoPizzasFound => "no pizzas found".to_owned(),
            PizzaError::PizzaCreationFailure => "pizza creation failure".to_owned(),
            PizzaError::NoSuchPizzaFound => "no such pizza found".to_owned(),
        }
    }
}

} // verus!
