//! The execution ledger of a content-addressed workflow runtime: tasks,
//! receipts and workflow progress, their canonical encoding, the identifiers
//! derived from it, and the protocol that resolves a workflow's progress.

pub mod order;
pub mod cid;
pub mod value;
pub mod outside;
pub mod frame;
pub mod codec;
pub mod error;
pub mod pointer;
pub mod unit;
pub mod prf;
pub mod instruction;
pub mod task;
pub mod receipt;
pub mod version;
pub mod workflow;
pub mod info;
pub mod gather;
pub mod laws;
