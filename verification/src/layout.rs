//! Where the segments of a shard live on disk.
//!
//! A segment is one file, `{data_dir}/indices/{index}/segments/{shard_type}/{n}.db`,
//! and the segments of a shard are numbered from zero without gaps.

use crate::shard::ShardType;
use crate::text::append_decimal;
use crate::text::decimal_digits;
use crate::text::lemma_decimal_round_trip;
use vstd::prelude::*;
use vstd::string::StringExecFns;

verus! {

/// The directory that holds the segments of one shard of one index.
pub open spec fn segment_directory_path(
    data_dir: Seq<char>,
    index: Seq<char>,
    shard_type: ShardType,
) -> Seq<char> {
    data_dir + "/indices/"@ + index + "/segments/"@ + shard_type.name()
}

/// The file name of segment `n`.
pub open spec fn segment_file_name(n: nat) -> Seq<char> {
    decimal_digits(n) + ".db"@
}

/// The path of segment `n` of one shard of one index.
pub open spec fn segment_file_path(
    data_dir: Seq<char>,
    index: Seq<char>,
    shard_type: ShardType,
    n: nat,
) -> Seq<char> {
    segment_directory_path(data_dir, index, shard_type) + "/"@ + segment_file_name(n)
}

/// The paths of segments `0` to `count - 1`, in that order.
pub open spec fn segment_file_paths(
    data_dir: Seq<char>,
    index: Seq<char>,
    shard_type: ShardType,
    count: nat,
) -> Seq<Seq<char>> {
    Seq::new(count, |n: int| segment_file_path(data_dir, index, shard_type, n as nat))
}

/// Builds the path of the directory that holds a shard's segments.
pub fn segment_directory(data_dir: &str, index: &str, shard_type: ShardType) -> (path: String)
    ensures
        path@ == segment_directory_path(data_dir@, index@, shard_type),
{
    let mut path = String::from_str(data_dir);
    path.append("/indices/");
    path.append(index);
    path.append("/segments/");
    let name = shard_type.to_string();
    path.append(name.as_str());
    path
}

/// Builds the path of segment `n`.
pub fn segment_path(data_dir: &str, index: &str, shard_type: ShardType, n: u16) -> (path: String)
    ensures
        path@ == segment_file_path(data_dir@, index@, shard_type, n as nat),
{
    let mut path = segment_directory(data_dir, index, shard_type);
    path.append("/");
    append_decimal(&mut path, n as u64);
    path.append(".db");
    assert(path@ =~= segment_file_path(data_dir@, index@, shard_type, n as nat));
    path
}

/// Builds the paths of segments `0` to `count - 1`.
pub fn segment_paths(data_dir: &str, index: &str, shard_type: ShardType, count: u16) -> (paths:
    Vec<String>)
    ensures
        paths@.len() == count,
        forall|n: int|
            0 <= n < count ==> (#[trigger] paths@[n])@ == segment_file_path(
                data_dir@,
                index@,
                shard_type,
                n as nat,
            ),
{
    let mut paths: Vec<String> = Vec::new();
    let mut n: u16 = 0;
    while n < count
        invariant
            n <= count,
            paths@.len() == n,
            forall|k: int|
                0 <= k < n ==> (#[trigger] paths@[k])@ == segment_file_path(
                    data_dir@,
                    index@,
                    shard_type,
                    k as nat,
                ),
        decreases count - n,
    {
        paths.push(segment_path(data_dir, index, shard_type, n));
        n = n + 1;
    }
    paths
}

/// Different segment numbers have different paths, so that laying out `count`
/// segments makes `count` files.
pub proof fn lemma_segment_paths_distinct(
    data_dir: Seq<char>,
    index: Seq<char>,
    shard_type: ShardType,
    n: nat,
    m: nat,
)
    requires
        n != m,
    ensures
        segment_file_path(data_dir, index, shard_type, n) != segment_file_path(
            data_dir,
            index,
            shard_type,
            m,
        ),
{
    let prefix = segment_directory_path(data_dir, index, shard_type) + "/"@;
    let a = segment_file_path(data_dir, index, shard_type, n);
    let b = segment_file_path(data_dir, index, shard_type, m);
    let x = decimal_digits(n);
    let y = decimal_digits(m);
    assert(a =~= prefix + x + ".db"@);
    assert(b =~= prefix + y + ".db"@);
    if a == b {
        assert(a.len() == b.len());
        assert(x.len() == y.len());
        assert forall|j: int| 0 <= j < x.len() implies x[j] == y[j] by {
            assert(a[prefix.len() + j] == x[j]);
            assert(b[prefix.len() + j] == y[j]);
        }
        assert(x =~= y);
        lemma_decimal_round_trip(n);
        lemma_decimal_round_trip(m);
    }
}

} // verus!
