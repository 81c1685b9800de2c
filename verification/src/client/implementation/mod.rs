//! The operations of the registry, one function for each, grouped by what
//! they act on. Each function says which request its operation is: the
//! method, the path with its query, and the body.

pub mod compatibility;
pub mod configuration;
pub mod exporter;
pub mod legacy;
pub mod mode;
pub mod schema;
pub mod subject;
