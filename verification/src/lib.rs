//! Gateway core for filing statutory company transactions with the
//! Companies House XML gateway: the envelope model, the transaction
//! executor's decisions, submission numbering, document retrieval and the
//! reconciliation of polled submission statuses.

pub mod base_types;
pub mod ch_ewf_grpc;
pub mod decimal;
pub mod error;
pub mod gov_talk;
pub mod grpc;
pub mod identifier;
pub mod members;
pub mod models;
pub mod officers;
pub mod outside;
pub mod proto;
pub mod psc;
pub mod rules;
pub mod schema;
pub mod store;
pub mod text;
pub mod time;
pub mod watcher;
