//! Administrative (DDL) execution pathway: batched administrative requests,
//! their response checks and decoding, and the drop-table procedure that a
//! data node runs against its catalog and its table engine.
pub mod admin;
pub mod api;
pub mod drop_table;
pub mod error;
pub mod output;
