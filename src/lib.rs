//! A lazy relational query builder: expressions, logical plans with derived
//! schemas, a layered configuration resolver, and the decisions that route a
//! finished plan to one of three execution backends.

pub mod config;
pub mod dataframe;
pub mod error;
pub mod expr;
pub mod plan;
pub mod schema;
pub mod text;
