//! Ingestion of line-protocol text into a multi-measure, multi-table
//! time-series store: parsing, record mapping, provisioning decisions and
//! bounded concurrent write scheduling, each with a verified contract.
pub mod text;
pub mod metric;
pub mod error;
pub mod config;
pub mod line_protocol_parser;
pub mod records_builder;
pub mod ingestion;
pub mod request;
