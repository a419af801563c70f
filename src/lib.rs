//! Image similarity search: turns images into fixed-width embeddings and keeps them
//! in a nearest-neighbour vector store.
//!
//! The modules hold the decisions of that pipeline, each with its contract: which
//! network and which device to use, which records and points to build, when a batch
//! or an answer of the store is accepted, and what provisioning and deletion do to
//! the store.

pub mod backend;
pub mod config;
pub mod device;
pub mod error;
pub mod estimate;
pub mod pipeline;
pub mod record;
pub mod session;
pub mod startup;
pub mod store;
