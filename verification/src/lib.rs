//! A verified access layer for a todo application.
//!
//! The crate has two independent halves.  The data half is a pooled
//! accessor over a storage model: [`pool`] supplies leased connections with a
//! bounded available count, [`store`] is the storage engine state, and
//! [`db`] exposes the accessor operations (`init_db`, `fetch_todos`,
//! `create_todo`) together with the row-to-entity mapper.  The client half
//! fetches a random fact from an external HTTP API: [`json`] decodes the
//! response body and [`client`] builds the request and validates the
//! response, status check first.  Both halves funnel failures through the
//! typed taxonomy in [`error`].

pub mod client;
pub mod db;
pub mod error;
pub mod json;
pub mod pool;
pub mod store;
pub mod todo;

pub use error::Error;
