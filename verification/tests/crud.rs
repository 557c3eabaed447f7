use pizza_store::error::PizzaError;
use pizza_store::handlers::{buy_pizza, buy_pizza_with_id, delete_pizza, get_pizzas, update_pizza};
use pizza_store::models::{BuyPizzaRequest, Pizza, UpdatePizzaURL};
use pizza_store::store::Database;

fn request(name: &str) -> BuyPizzaRequest {
    BuyPizzaRequest { pizza_name: name.to_owned() }
}

fn url(uuid: &str) -> UpdatePizzaURL {
    UpdatePizzaURL { uuid: uuid.to_owned() }
}

#[test]
fn create_margherita_returns_hex_identifier() {
    let mut db = Database::init();
    let created = buy_pizza(&mut db, request("Margherita")).unwrap();
    assert_eq!(created.pizza_name, "Margherita");
    assert_eq!(created.uuid.len(), 32);
    for c in created.uuid.chars() {
        assert!(('0'..='9').contains(&c) || ('a'..='f').contains(&c));
    }
}

#[test]
fn created_name_equals_requested_name() {
    let mut db = Database::init();
    let created = buy_pizza(&mut db, request("Quattro Stagioni")).unwrap();
    assert_eq!(created.pizza_name, "Quattro Stagioni");
}

#[test]
fn identifiers_differ_between_creates() {
    let mut db = Database::init();
    let first = buy_pizza(&mut db, request("Margherita")).unwrap();
    let second = buy_pizza(&mut db, request("Margherita")).unwrap();
    assert_ne!(first.uuid, second.uuid);
}

#[test]
fn empty_name_is_rejected_and_nothing_is_persisted() {
    let mut db = Database::init();
    let outcome = buy_pizza(&mut db, request(""));
    assert_eq!(outcome.err().unwrap(), PizzaError::PizzaCreationFailure);
    assert_eq!(get_pizzas(&db).err().unwrap(), PizzaError::NoPizzasFound);
}

#[test]
fn empty_store_reports_no_pizzas_found_not_an_empty_array() {
    let db = Database::init();
    let outcome = get_pizzas(&db);
    assert!(outcome.is_err());
    assert_eq!(outcome.err().unwrap(), PizzaError::NoPizzasFound);
}

#[test]
fn list_is_stable_without_intervening_writes() {
    let mut db = Database::init();
    buy_pizza(&mut db, request("Margherita")).unwrap();
    buy_pizza(&mut db, request("Diavola")).unwrap();
    buy_pizza(&mut db, request("Capricciosa")).unwrap();
    let first = get_pizzas(&db).unwrap();
    let second = get_pizzas(&db).unwrap();
    assert_eq!(first.len(), 3);
    assert_eq!(second.len(), 3);
    for (a, b) in first.iter().zip(second.iter()) {
        assert_eq!(a.uuid, b.uuid);
        assert_eq!(a.pizza_name, b.pizza_name);
    }
    assert_eq!(first[0].pizza_name, "Margherita");
    assert_eq!(first[1].pizza_name, "Diavola");
    assert_eq!(first[2].pizza_name, "Capricciosa");
}

#[test]
fn delete_succeeds_once_then_reports_no_such_pizza() {
    let mut db = Database::init();
    let created = buy_pizza(&mut db, request("Margherita")).unwrap();
    let deleted = delete_pizza(&mut db, url(&created.uuid)).unwrap();
    assert_eq!(deleted.uuid, created.uuid);
    assert_eq!(deleted.pizza_name, "Margherita");
    let again = delete_pizza(&mut db, url(&created.uuid));
    assert_eq!(again.err().unwrap(), PizzaError::NoSuchPizzaFound);
}

#[test]
fn delete_unknown_identifier_reports_no_such_pizza() {
    let mut db = Database::init();
    buy_pizza(&mut db, request("Margherita")).unwrap();
    let outcome = delete_pizza(&mut db, url("ffffffffffffffffffffffffffffffff"));
    assert_eq!(outcome.err().unwrap(), PizzaError::NoSuchPizzaFound);
    assert_eq!(get_pizzas(&db).unwrap().len(), 1);
}

#[test]
fn update_unknown_identifier_reports_no_such_pizza() {
    let mut db = Database::init();
    let outcome = update_pizza(&db, url("ffffffffffffffffffffffffffffffff"));
    assert_eq!(outcome.err().unwrap(), PizzaError::NoSuchPizzaFound);
}

#[test]
fn update_returns_the_addressed_record_unchanged() {
    let mut db = Database::init();
    let created = buy_pizza(&mut db, request("Diavola")).unwrap();
    let updated = update_pizza(&db, url(&created.uuid)).unwrap();
    assert_eq!(updated.uuid, created.uuid);
    assert_eq!(updated.pizza_name, "Diavola");
}

#[test]
fn create_under_taken_identifier_is_refused() {
    let mut db = Database::init();
    let first = buy_pizza_with_id(&mut db, request("Margherita"), "abc".to_owned());
    assert!(first.is_ok());
    let second = buy_pizza_with_id(&mut db, request("Diavola"), "abc".to_owned());
    assert_eq!(second.err().unwrap(), PizzaError::PizzaCreationFailure);
    assert_eq!(get_pizzas(&db).unwrap().len(), 1);
}

#[test]
fn validate_requires_a_non_empty_name() {
    assert!(request("Margherita").validate());
    assert!(!request("").validate());
}

#[test]
fn pizza_new_keeps_both_fields() {
    let pizza = Pizza::new("abc".to_owned(), "Margherita".to_owned());
    assert_eq!(pizza.uuid, "abc");
    assert_eq!(pizza.pizza_name, "Margherita");
}

#[test]
fn error_mapping_gives_status_and_message() {
    assert_eq!(PizzaError::NoPizzasFound.status_code(), 404);
    assert_eq!(PizzaError::PizzaCreationFailure.status_code(), 500);
    assert_eq!(PizzaError::NoSuchPizzaFound.status_code(), 404);
    assert_eq!(PizzaError::NoPizzasFound.message(), "no pizzas found");
    assert_eq!(PizzaError::PizzaCreationFailure.message(), "pizza creation failure");
    assert_eq!(PizzaError::NoSuchPizzaFound.message(), "no such pizza found");
}
