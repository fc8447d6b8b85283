//! The description of an inverted index.

use vstd::prelude::*;

verus! {

/// A named index and the number of shards it is to be split into.
pub struct InvertedIndex {
    /// Name of the index, such as `logs`.
    pub name: String,
    /// User name or address of whoever made the index.
    pub owner: Option<String>,
    /// Number of primary shards the index should have.
    pub primary_shards: i32,
    /// Number of replica shards the index should have.
    pub replica_shards: i32,
}

impl InvertedIndex {
    /// An index called `name`, made by `owner`, with the given shard counts.
    pub fn new(name: &str, owner: &str, primary: i32, replica: i32) -> (index: InvertedIndex)
        ensures
            index.name@ == name@,
            index.owner is Some,
            index.owner->0@ == owner@,
            index.primary_shards == primary,
            index.replica_shards == replica,
    {
        InvertedIndex {
            name: name.to_owned(),
            owner: Some(owner.to_owned()),
            primary_shards: primary,
            replica_shards: replica,
        }
    }
}

/// What went wrong with an index or its store.
#[derive(Debug)]
pub struct InvertedIndexError {
    pub details: String,
}

impl InvertedIndexError {
    /// An error that carries `msg`.
    pub fn new(msg: &str) -> (error: InvertedIndexError)
        ensures
            error.details@ == msg@,
    {
        InvertedIndexError { details: msg.to_owned() }
    }

    /// The message of the error.
    pub fn description(&self) -> (text: &str)
        ensures
            text@ == self.details@,
    {
        self.details.as_str()
    }
}

} // verus!
