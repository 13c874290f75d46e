//! Admission decisions for events of the nostr protocol: a policy of permitted
//! kinds and authors, the canonical `npub` form of an author key, and the
//! evaluation that combines them.

pub mod codec;
pub mod policy;
pub mod engine;
pub mod config;
pub mod service;
