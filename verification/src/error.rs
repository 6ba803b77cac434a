//! Error taxonomy of the extraction pipeline and of the storage layer.

use vstd::prelude::*;

verus! {

/// Errors of the storage collaborator.
#[derive(Debug, Clone, PartialEq, Eq)]
pub enum VybeDatabaseError {
    /// The connection string environment variable was not found.
    EnvVar,
    /// Establishing the database connection failed.
    Connection(String),
    /// A query or an insert failed; carries the database's own message.
    Diesel(String),
    /// An event without fill details was handed to the record conversion.
    InvalidPhoenixEvent,
}

/// Errors of the extraction pipeline. Transport errors from the remote
/// ledger are fatal to the cycle; they end the polling loop.
#[derive(Debug, Clone, PartialEq, Eq)]
pub enum VybeDaemonError {
    /// The market address string is not a well-formed account identifier.
    ParsePubkey,
    /// Connecting to the ledger client failed; carries the client's message.
    PhoenixClient(String),
    /// A transport failure reported by the ledger client.
    EllipsisClient(String),
    /// A transport failure reported by the remote node.
    SolanaClient(String),
    /// A parse task was cancelled or panicked before completing.
    TokioJoin(String),
    /// A storage error surfaced outside the per-record insert path.
    Database(VybeDatabaseError),
}

} // verus!
