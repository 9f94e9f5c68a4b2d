pub mod nodes;
pub mod predicates;
pub mod properties;
pub mod types;
pub mod values;
