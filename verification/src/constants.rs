use vstd::prelude::*;

verus! {

/// How many segment workers a shard is given when it is first laid out.
pub const DEFAULT_INDEX_STORE_WORKERS: u16 = 10;

/// The data directory that tests and examples use.
pub const TEST_DEFAULT_DATA_DIRECTORY: &'static str = "/tmp/rustsearch";

/// Largest number of bytes one read from a peer connection can deliver, and so
/// the largest wire message a peer can receive in one piece.
pub const MAX_MESSAGE_BYTES: usize = 1028;

/// How long a node waits, in milliseconds, before it tries again to register
/// with the metadata server.
pub const REGISTRATION_RETRY_MILLIS: u64 = 5000;

} // verus!
