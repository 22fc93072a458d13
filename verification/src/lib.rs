//! A library management service: membership, a book catalog, physical
//! copies ("instances"), and the circulation ledger that records which
//! user holds or reserves which instance.
//!
//! The ledger is the verified core: every domain operation is specified
//! by a transition function over a mathematical view of the store, and
//! the executable operations are proved to implement those transitions.

pub mod api;
pub mod laws;
pub mod ledger;
pub mod model;
pub mod text;
pub mod utils;
