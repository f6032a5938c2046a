//! Data layer of a salon scheduling backend: the records of stores, staff and
//! services, and each repository operation as a verified plan of statements
//! against a relational store.
//!
//! An operation never touches the store itself. It is a function from the
//! replies received so far to its next step: a statement to run, a finished
//! result, or a failure. A driver outside this crate runs each statement and
//! hands the reply back. The spec model in `model` says what each statement
//! does to the tables; `laws` proves over it what holds of operations run one
//! after another.

mod time;

pub use time::TimeOfDay;
pub mod db;
pub mod model;
pub mod laws;
pub mod service;
pub mod staff;
pub mod store;
