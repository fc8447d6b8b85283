//! The control plane of a sharded inverted-index search engine.
//!
//! * [`document`] splits text into terms and records where each term stands.
//! * [`shard`], [`index`] and [`layout`] describe an index, its shards and the
//!   files that hold a shard's segments.
//! * [`manager`] and [`store`] lay out the segments of a shard and hand each
//!   document to the worker of the segment that owns it.
//! * [`messages`], [`db`], [`node`] and [`cluster`] are the membership
//!   protocol: the messages of the cluster, the table of registered nodes, the
//!   rules by which a node handles messages and registers itself, and the
//!   switchboard through which the rest of the process reaches the node.
//! * [`backoff`] says how long a node waits between attempts to register.
//! * [`router`] and [`web`] decide which handler answers a web request and
//!   what the handlers answer.
//!
//! The library decides and keeps state; it opens no file and no socket. Whoever
//! uses it performs the I/O and tells the library what came of it.

pub mod backoff;
pub mod channel;
pub mod cluster;
pub mod constants;
pub mod db;
pub mod document;
pub mod index;
pub mod json;
pub mod layout;
pub mod manager;
pub mod messages;
pub mod node;
pub mod router;
pub mod shard;
pub mod store;
pub mod text;
pub mod web;
