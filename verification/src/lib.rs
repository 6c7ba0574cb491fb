//! A client–server structured data store whose traffic runs over an
//! encrypted, authenticated channel and whose queries are boolean
//! compositions of collection/usecase predicates.
//!
//! The crate covers the wire-protocol core: the message-type tag codec,
//! the secure channel (AES-GCM-SIV behind trusted wrappers), the frame
//! codec that binds a tag to an encrypted payload, the per-connection
//! state machine and command dispatcher, the insertion pipeline, and the
//! recursive query evaluation engine.

pub mod message_type;
pub mod secure_channel;
pub mod codec;
pub mod query;
pub mod store;
pub mod engine;
pub mod connection;
