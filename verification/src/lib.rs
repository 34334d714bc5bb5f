//! Verified pieces of a query engine: user principals and their option
//! flags, the date column deserializer, the MySQL TLS setup, the
//! filter-inference rule, aggregate block metadata and the decisions of the
//! data-mutation interpreter.

pub mod error;
pub mod user_info;
pub mod calendar;
pub mod values;
pub mod date_deserializer;
pub mod tls;
pub mod infer_filter;
pub mod aggregate_meta;
pub mod data_mutation;
