//! Query-result normalisation for a desktop SQL client.
//!
//! A connection profile selects a database engine; the rows that the engine
//! returns, as typed values in their wire form, become a table of column names
//! and display strings. The library holds the decisions of that pipeline and
//! their proofs; opening connections and sending statements is left to the
//! program around it, which is told step by step what to do next.

pub mod decimal;
pub mod greeting;
pub mod pipeline;
pub mod profile;
pub mod readers;
pub mod render;
pub mod table;
pub mod value;
pub mod wire;

pub use pipeline::{
    connection_test_step, query_step, ConnectionTestEvent, ConnectionTestStep, QueryEvent,
    QueryStep,
};
pub use profile::{BackendKind, DatabaseConnection};
pub use table::QueryResult;
