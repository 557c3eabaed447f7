//! A small pizza shop: an in-memory store of pizza records together with the
//! request handlers of a CRUD service over them — list, create, update and
//! delete — each verified against a contract over the store's mathematical
//! model.

pub mod error;
pub mod handlers;
pub mod laws;
pub mod models;
pub mod store;
