//! Verified core of the study-group service: the data model, the storage
//! keys, the error model with its HTTP mapping, the pagination cursor, the
//! decisions that the request handlers take, and the plan that the
//! background worker carries out for each membership event.

pub mod models;
pub mod errors;
pub mod keys;
pub mod ids;
pub mod cursor;
pub mod groups;
pub mod members;
pub mod repository;
pub mod service;
pub mod worker;
