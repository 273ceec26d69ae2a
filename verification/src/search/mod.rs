pub mod sql;
pub mod filter;
pub mod conditions;
pub mod books;
pub mod query;
pub mod safety;
pub mod laws;
