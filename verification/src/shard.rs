//! Shards: the logical partitions of an index.

use vstd::prelude::*;
use vstd::string::StringExecFns;

verus! {

/// Whether a shard takes writes or mirrors one that does.
#[derive(Clone, Copy, Debug, PartialEq, Eq, Structural)]
pub enum ShardType {
    /// A shard that is written to and read from.
    Primary,
    /// A read-only mirror of a primary shard.
    Replica,
}

impl ShardType {
    /// The name under which a shard of this type is kept on disk.
    pub open spec fn name(self) -> Seq<char> {
        match self {
            ShardType::Primary => "primary"@,
            ShardType::Replica => "replica"@,
        }
    }

    /// The lower-case name of the shard type: `"primary"` or `"replica"`. The
    /// name is a directory name below the data directory, so its spelling is
    /// fixed.
    pub fn to_string(&self) -> (name: String)
        ensures
            name@ == self.name(),
    {
        match self {
            ShardType::Primary => String::from_str("primary"),
            ShardType::Replica => String::from_str("replica"),
        }
    }

    /// The name, taking the value.
    pub fn into_string(self) -> (name: String)
        ensures
            name@ == self.name(),
    {
        self.to_string()
    }
}

/// The two shard types have different names, seven lower-case letters each,
/// with no path separator in them.
pub proof fn lemma_shard_type_names()
    ensures
        ShardType::Primary.name() == seq!['p', 'r', 'i', 'm', 'a', 'r', 'y'],
        ShardType::Replica.name() == seq!['r', 'e', 'p', 'l', 'i', 'c', 'a'],
        ShardType::Primary.name() != ShardType::Replica.name(),
{
    reveal_strlit("primary");
    reveal_strlit("replica");
    assert(ShardType::Primary.name() =~= seq!['p', 'r', 'i', 'm', 'a', 'r', 'y']);
    assert(ShardType::Replica.name() =~= seq!['r', 'e', 'p', 'l', 'i', 'c', 'a']);
    assert(ShardType::Primary.name()[0] != ShardType::Replica.name()[0]);
}

/// One shard of a named index.
pub struct Shard {
    /// Name of the index that the shard belongs to.
    pub index: String,
    /// Whether the shard is a primary or a replica.
    pub shard_type: ShardType,
}

impl Shard {
    /// A shard of the index `index`.
    pub fn new(index: &str, shard_type: ShardType) -> (shard: Shard)
        ensures
            shard.index@ == index@,
            shard.shard_type == shard_type,
    {
        Shard { index: index.to_owned(), shard_type }
    }
}

} // verus!
