//! Admission of signed transactions into a ledger node's pending pool: the value types of the
//! ledger, their text encodings, the collaborator interfaces the admission pipeline consumes,
//! an in-memory pending pool, and the pipeline itself.
pub mod codec;
pub mod keys;
pub mod token;
pub mod address;
pub mod models;
pub mod error;
pub mod collaborators;
pub mod mempool;
pub mod admission;
pub mod stores;
pub mod hashing;
pub mod routing;
pub mod queries;
pub mod block;
