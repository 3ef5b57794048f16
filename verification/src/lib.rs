//! An in-memory ticket store.
//!
//! Tickets carry an identity, two text fields and a lifecycle status.
//! The library provides the identity allocator, the record operations,
//! the id-to-record index with point lookup and full-replacement update,
//! and the classification of outcomes for a dispatch boundary. Every
//! operation carries a contract over the store's mathematical view.

pub mod data;
pub mod dispatch;
pub mod render;
pub mod store;
