//! The errors of an ingestion call.
use vstd::prelude::*;
use crate::config::EnvVar;

verus! {

/// What stopped an ingestion call. Each variant names the input, variable
/// or resource it concerns.
#[derive(Debug, Clone, PartialEq)]
pub enum ConnectorError {
    /// A line of the input is not valid line protocol; the parser's message.
    Parse(String),
    /// A line of the input carries no timestamp.
    MissingTimestamp,
    /// A configuration variable that the call needs is not set.
    MissingVariable(EnvVar),
    /// The custom partition key type is neither `dimension` nor `measure`.
    InvalidPartitionKeyType,
    /// A configuration variable does not hold a decimal integer.
    InvalidNumber(EnvVar),
    /// The named database does not exist and may not be created.
    DatabaseMissing(String),
    /// The named table does not exist and may not be created.
    TableMissing(String),
    /// Looking up or creating a resource failed; the store's message.
    Provision(String),
    /// Writing a chunk of records failed; the store's message.
    Write(String),
}

} // verus!
