//! Federation layer of a multi-cluster log search platform: one incoming
//! query is split into per-cluster sub-queries, each run against the local
//! engine or a remote peer, and the outcomes are merged back into one
//! ordered response that isolates per-cluster failures. Beside it stands
//! the document identity generator, the engine primitive that gives every
//! row a unique opaque identifier.

pub mod doc_id;
pub mod orchestrator;
pub mod proxy;
pub mod search;
pub mod stream;
