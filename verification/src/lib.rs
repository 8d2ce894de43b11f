//! Verified core of a libfabric (OFI) transport for RDMA buffers.

pub mod backend;
pub mod completion;
pub mod domain;
pub mod effect;
pub mod endpoint;
pub mod error;
pub mod history;
pub mod law_completion;
pub mod law_request;
pub mod law_result;
pub mod law_setup;
pub mod law_submission;
pub mod law_transfer;
pub mod laws;
pub mod machine;
pub mod manager_actor;
pub mod memory;
pub mod messages;
pub mod ops;
pub mod peers;
pub mod primitives;
pub mod probe;
pub mod progress;
pub mod registration;
pub mod task;
pub mod teardown;
pub mod text;
