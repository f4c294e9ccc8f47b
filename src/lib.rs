//! A small service over a single table of todo items: the data model, the
//! mapping from each store outcome to the HTTP reply, and an in-memory model of
//! the table that the request handlers can run against.
pub mod decimal;
pub mod laws;
pub mod reply;
pub mod service;
pub mod table;
pub mod todo;
