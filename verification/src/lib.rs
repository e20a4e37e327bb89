//! Async operations that RPC calls launch: their IDs, their states and results, and the bounded
//! queue that keeps them until their results are collected.

pub mod error;
mod json;
pub mod operation;
pub mod operation_id;
pub mod queue;
pub mod state;
mod text;
pub mod time;
pub mod uuid_text;

pub use error::{LegacyCode, RpcError};
pub use operation::{
    panic_message, task_name, AsyncOperation, ContextInfo, OperationData, OperationError,
    OperationStatus, TaskOutcome,
};
pub use operation_id::OperationId;
pub use queue::{FinishedIds, OperationQueue};
pub use state::OperationState;
pub use time::Timestamp;
