//! A small read-only tabular query tool: a restricted `SELECT` is translated
//! into a query descriptor and executed against an in-memory store of tables.

pub mod engine;
pub mod fixture;
pub mod limits;
pub mod name_map;
pub mod query;
pub mod reader;
pub mod render;
pub mod session;
pub mod sql_ast;
pub mod startup;
pub mod statement;
pub mod store;
pub mod table_order;
pub mod translate;
pub mod value;
