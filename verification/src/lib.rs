//! The decisions of a small service that keeps posts in a document store.
//!
//! The crate holds the data shapes, the mapping from stored posts to
//! the posts handed to clients, the exchange with the store as a state
//! machine, and the mapping of results to HTTP replies. It performs no
//! network traffic itself: a driver carries each `StoreCall` to the store
//! and hands the answer back as a `StoreEvent`.

pub mod collection;
pub mod db;
pub mod error;
pub mod handler;
pub mod ident;
pub mod laws;
pub mod model;
pub mod response;
pub mod route;
pub mod schema;
pub mod store;
