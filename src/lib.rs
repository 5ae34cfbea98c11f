//! Client core for a replicated SQLite-compatible database: a wire codec for
//! query values, the replica registry, the remote executor's bookkeeping and
//! the per-session routing state machine.

pub mod error;
pub mod varint;
pub mod value;
pub mod text;
pub mod client;
pub mod replicas;
pub mod connection;
pub mod datasource;

pub use client::{ExecutionResult, HAClient, HAClientOptions, QueryRequest, QueryResponse, QueryType};
pub use connection::{HAConnection, HAConnectionOptions, Route, SessionOp};
pub use datasource::{HADataSource, HADataSourceOptions};
pub use error::{Error, Result};
pub use replicas::{EmbeddedReplicasManager, ReplicaConnection, ReplicaOptions};
pub use value::{Timestamp, Value, WireEnvelope};
