//! Client library for the BosonNLP text-analysis web service.
//!
//! The asynchronous clustering workflows (text clustering and representative
//! comments) are driven by a verified state machine in [`task`]: it decides
//! which request to send next and how to react to each reply, while the caller
//! performs the requests.
use vstd::prelude::*;

pub mod client;
pub mod errors;
pub mod rep;
pub mod task;
pub mod transport;

pub use client::BosonNLP;
pub use errors::{Error, Result};
pub use task::{ClusterTask, CommentsTask};
pub use rep::{
    ClusterContent, CommentsCluster, ConvertedTime, Dependency, NamedEntity, Tag, TaskPushResp,
    TaskStatus, TaskStatusResp, TextCluster,
};

verus! {

} // verus!
