pub mod wire;
pub mod rc;
pub mod error;
pub mod handle;
pub mod tpm;
pub mod types;
pub mod cap;
pub mod creation;
pub mod policy;
pub mod codec;
pub mod command;
pub mod response;
pub mod parse;
pub mod header;
pub mod crypto;
pub mod session;
pub mod text;
pub mod hierarchy;
pub mod store;
pub mod meta;
pub mod cache;
pub mod plan;
pub mod scheme;
pub mod created;
pub mod keys;
pub mod requests;
pub mod lifecycle;
pub mod authorize;
pub mod public;
