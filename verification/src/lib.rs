//! Cost-model building blocks of a query optimizer: plan-node and predicate
//! representations, attribute schemas and the semantic correlation of base-table
//! attributes (which attributes are known to hold equal values).

pub mod cardbench;
pub mod common;
pub mod dbms;
pub mod tpch;
pub mod utils;
