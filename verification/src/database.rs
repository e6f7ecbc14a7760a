//! The data model the storage layer exchanges with the verified core:
//! plain identifier types, account and post rows, and the decision rules
//! of the actions on them. The SQL itself, connection handling and row
//! mapping are the callers' concern; everything here is a pure value or a
//! pure function of fetched values.
pub mod account;
pub mod follow;
pub mod post;
pub mod vote;
pub mod types;
