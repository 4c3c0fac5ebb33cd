//! Core logic of a local development bridge: project layout discovery,
//! transactional mutation batches, search pagination with resumable cursors,
//! resolver invocation results and the reload lifecycle, each with a
//! machine-checked contract.

pub mod atomicity;
pub mod cursor;
pub mod environment;
pub mod errors;
pub mod mutation;
pub mod operation;
pub mod pagination;
pub mod plan;
pub mod query;
pub mod reload;
pub mod report;
pub mod resolver;
pub mod resume;
pub mod router;
pub mod schema;
pub mod search;
pub mod server;
pub mod tokenizer;
pub mod paths;
