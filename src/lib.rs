//! Verified decision core of a management layer over the ZFS storage-pool
//! subsystem: translating subsystem status codes, driving bulk import and
//! export batches that collect every per-pool failure, finishing an
//! enumeration of imported pools, and the lifecycle of the handle context.
//!
//! The calls into the subsystem itself are made by the caller, which hands
//! each outcome back to the state machines here.
use vstd::prelude::*;

pub mod batch;
pub mod error;
pub mod handle;

pub use batch::{BatchAction, BatchRun, ItemOutcome};
pub use error::{status_to_result, ZfsError};
pub use handle::Libzfs;
