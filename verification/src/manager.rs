//! The manager of one shard: it lays out the shard's segments, keeps one
//! worker per segment and hands each indexing command to the worker that owns
//! the document.

use crate::channel::receive_from;
use crate::channel::send_on;
use crate::constants::DEFAULT_INDEX_STORE_WORKERS;
use crate::document::Document;
use crate::layout::segment_directory;
use crate::layout::lemma_segment_paths_distinct;
use crate::layout::segment_directory_path;
use crate::layout::segment_file_name;
use crate::layout::segment_file_path;
use crate::layout::segment_file_paths;
use crate::layout::segment_paths;
use crate::shard::ShardType;
use std::sync::mpsc::channel;
use std::sync::mpsc::Receiver;
use std::sync::mpsc::Sender;
use vstd::prelude::*;

verus! {

/// The engines that can keep the segments of an index.
#[derive(Clone, Copy, Debug, PartialEq, Eq, Structural)]
pub enum StorageEngine {
    /// One embedded SQLite database per segment.
    SQLite,
    /// Plain files.
    Filesystem,
}

/// What a manager or a worker knows of the documents it has taken.
#[derive(Clone, Copy, Debug, PartialEq, Eq, Structural)]
pub struct IndexStats {
    /// Number of documents indexed; it stops at `u64::MAX`.
    pub documents: u64,
}

/// What a manager can be asked to do. Where an answer is wanted the command
/// carries the channel to send it on.
#[allow(inconsistent_fields)]
pub enum IndexCommand {
    /// Index `document`; the answer acknowledges that the command was received.
    IndexDocument { document: Document, response_channel: Option<Sender<bool>> },
    /// Report the statistics.
    Stats { response_channel: Sender<IndexStats> },
    /// Say whether the segments are laid out and their workers running.
    Ready { response_channel: Sender<bool> },
}

/// The manager's record of the worker of one segment.
pub struct IndexWorker {
    /// Path of the segment that the worker keeps.
    pub database_path: String,
    /// Number of documents handed to the worker; it stops at `u64::MAX`.
    pub documents: u64,
}

impl IndexWorker {
    /// The record of a worker that keeps the segment at `path` and has been
    /// handed nothing yet.
    pub fn new(path: String) -> (worker: IndexWorker)
        ensures
            worker.database_path == path,
            worker.documents == 0,
    {
        IndexWorker { database_path: path, documents: 0 }
    }
}

/// An answer that was sent on the channel which came with a document.
#[derive(Clone, Copy, Debug, PartialEq, Eq, Structural)]
pub struct Acknowledgment {
    /// The answer that was sent.
    pub value: bool,
    /// Whether the channel took the answer.
    pub delivered: bool,
}

/// What became of one command.
#[derive(Clone, Copy, Debug, PartialEq, Eq, Structural)]
pub enum Handled {
    /// A document was sent on to the worker of `segment`. `forwarded` tells
    /// whether the worker's channel took it; `acknowledged` is `None` where
    /// the command asked for no answer, and else the answer that was sent.
    Routed { segment: usize, forwarded: bool, acknowledged: Option<Acknowledgment> },
    /// A document that no segment can take: it has no id, or the manager has
    /// no segments.
    Unroutable { acknowledged: Option<Acknowledgment> },
    /// The statistics were asked for; `delivered` tells whether the answer was
    /// taken.
    Stats { stats: IndexStats, delivered: bool },
    /// Readiness was asked for.
    Ready { ready: bool, delivered: bool },
}

/// The sum of the counts.
pub open spec fn total_documents(counts: Seq<u64>) -> nat
    decreases counts.len(),
{
    if counts.len() == 0 {
        0
    } else {
        total_documents(counts.drop_last()) + counts.last() as nat
    }
}

/// The segment that owns the document with the given id: the id modulo the
/// number of segments. A document without an id has no owner, and without
/// segments nothing has.
pub open spec fn route_of(id: Option<u64>, segments: nat) -> Option<nat> {
    match id {
        Some(id) if segments > 0 => Some(id as nat % segments),
        _ => None,
    }
}

/// The segments that must be laid out for a shard whose directory holds
/// `existing` segment files: all `workers` of them where it holds none, and
/// none where it holds any.
pub open spec fn segments_to_create(existing: nat, workers: nat) -> nat {
    if existing == 0 {
        workers
    } else {
        0
    }
}

/// The count of a segment after one more document, which stays at the top once
/// it is there.
pub open spec fn counted(count: u64) -> u64 {
    if count < u64::MAX {
        (count + 1) as u64
    } else {
        count
    }
}

/// One shard of an index on this node.
pub struct Manager {
    /// Name of the index that the shard belongs to.
    pub index_name: String,
    /// Whether the shard is a primary or a replica.
    pub shard_type: ShardType,
    /// The directory below which all data is kept.
    pub data_directory: String,
    /// The segments: the channel into each worker, and the record of it.
    pub segments: Vec<(Sender<IndexCommand>, IndexWorker)>,
    /// The channel on which the manager is given its commands.
    pub receiver: Receiver<IndexCommand>,
    /// Number of segments that a new shard is given.
    pub workers: u16,
    /// The engine that keeps the segments.
    pub storage_engine: StorageEngine,
    /// Whether the segments are laid out and the workers started.
    pub ready: bool,
}

impl Manager {
    /// The paths of the segments, in order.
    pub open spec fn paths(&self) -> Seq<Seq<char>> {
        Seq::new(self.segments@.len(), |k: int| self.segments@[k].1.database_path@)
    }

    /// The channels into the workers of the segments, in order.
    pub open spec fn channels(&self) -> Seq<Sender<IndexCommand>> {
        Seq::new(self.segments@.len(), |k: int| self.segments@[k].0)
    }

    /// The number of documents handed to each segment, in order.
    pub open spec fn counts(&self) -> Seq<u64> {
        Seq::new(self.segments@.len(), |k: int| self.segments@[k].1.documents)
    }

    /// The statistics of the shard: the documents of all segments together,
    /// or `u64::MAX` if they are more.
    pub open spec fn stats(&self) -> IndexStats {
        let total = total_documents(self.counts());
        IndexStats {
            documents: if total <= u64::MAX {
                total as u64
            } else {
                u64::MAX
            },
        }
    }

    /// Whether two managers are the same but for their channels and what
    /// their segments have counted.
    pub open spec fn same_shard(&self, other: &Manager) -> bool {
        &&& self.index_name == other.index_name
        &&& self.shard_type == other.shard_type
        &&& self.data_directory == other.data_directory
        &&& self.workers == other.workers
        &&& self.storage_engine == other.storage_engine
    }

    /// The manager of the shard `shard_type` of the index `name`, with its data
    /// below `data_directory` and its commands on `chan`. It has no segments
    /// yet and is not ready.
    pub fn new(
        name: &str,
        data_directory: &str,
        chan: Receiver<IndexCommand>,
        storage_engine: StorageEngine,
        shard_type: ShardType,
    ) -> (manager: Manager)
        ensures
            manager.index_name@ == name@,
            manager.data_directory@ == data_directory@,
            manager.receiver == chan,
            manager.storage_engine == storage_engine,
            manager.shard_type == shard_type,
            manager.workers == DEFAULT_INDEX_STORE_WORKERS,
            manager.segments@.len() == 0,
            !manager.ready,
    {
        Manager {
            index_name: name.to_owned(),
            shard_type,
            data_directory: data_directory.to_owned(),
            segments: Vec::new(),
            receiver: chan,
            workers: DEFAULT_INDEX_STORE_WORKERS,
            storage_engine,
            ready: false,
        }
    }

    /// The directory that holds the shard's segments, which must exist before
    /// the segments are listed.
    pub fn segment_directory(&self) -> (path: String)
        ensures
            path@ == segment_directory_path(self.data_directory@, self.index_name@, self.shard_type),
    {
        segment_directory(self.data_directory.as_str(), self.index_name.as_str(), self.shard_type)
    }

    /// The segments to lay out, given the segment files that the directory
    /// holds: the segments `0` to `workers - 1` where it holds none, and none
    /// where it holds any.
    pub fn segments_to_initialize(&self, existing_segments: &Vec<String>) -> (paths: Vec<String>)
        ensures
            paths@.len() == segments_to_create(existing_segments@.len(), self.workers as nat),
            paths@.map_values(|path: String| path@) == segment_file_paths(
                self.data_directory@,
                self.index_name@,
                self.shard_type,
                segments_to_create(existing_segments@.len(), self.workers as nat),
            ),
    {
        let count: u16 = if existing_segments.len() == 0 {
            self.workers
        } else {
            0
        };
        let paths = segment_paths(
            self.data_directory.as_str(),
            self.index_name.as_str(),
            self.shard_type,
            count,
        );
        assert(paths@.map_values(|path: String| path@) =~= segment_file_paths(
            self.data_directory@,
            self.index_name@,
            self.shard_type,
            count as nat,
        ));
        paths
    }
    /// Starts the shard on the segment files found on disk: the manager gets
    /// one worker record and one channel per file, in the order given, and is
    /// ready from then on. The receiving halves of the channels are returned,
    /// one per segment and in the same order, for the workers to listen on.
    pub fn start(&mut self, existing_segments: Vec<String>) -> (listeners: Vec<
        Receiver<IndexCommand>,
    >)
        ensures
            final(self).same_shard(old(self)),
            final(self).receiver == old(self).receiver,
            final(self).ready,
            final(self).paths() == existing_segments@.map_values(|path: String| path@),
            final(self).counts() == Seq::new(existing_segments@.len(), |k: int| 0u64),
            listeners@.len() == existing_segments@.len(),
    {
        let mut segments: Vec<(Sender<IndexCommand>, IndexWorker)> = Vec::new();
        let mut listeners: Vec<Receiver<IndexCommand>> = Vec::new();
        let mut k: usize = 0;
        while k < existing_segments.len()
            invariant
                k <= existing_segments.len(),
                segments@.len() == k,
                listeners@.len() == k,
                forall|j: int|
                    0 <= j < k ==> (#[trigger] segments@[j]).1.database_path@
                        == existing_segments@[j]@ && segments@[j].1.documents == 0,
            decreases existing_segments.len() - k,
        {
            let (tx, rx) = channel::<IndexCommand>();
            let worker = IndexWorker::new(existing_segments[k].clone());
            segments.push((tx, worker));
            listeners.push(rx);
            k = k + 1;
        }
        self.segments = segments;
        self.ready = true;
        assert(self.paths() =~= existing_segments@.map_values(|path: String| path@));
        assert(self.counts() =~= Seq::new(existing_segments@.len(), |k: int| 0u64));
        listeners
    }

    /// The segment that owns `document`, if any does.
    pub fn route(&self, document: &Document) -> (segment: Option<usize>)
        ensures
            segment is Some <==> route_of(document.id, self.segments@.len()) is Some,
            segment is Some ==> segment->0 == route_of(document.id, self.segments@.len())->0,
            segment is Some ==> segment->0 < self.segments@.len(),
    {
        match document.id {
            Some(id) => {
                let n = self.segments.len();
                if n == 0 {
                    None
                } else {
                    Some((id % (n as u64)) as usize)
                }
            },
            None => None,
        }
    }

    /// Notes that a document was offered to the worker of `segment`: where the
    /// worker's channel took it, the segment counts one document more. Returns
    /// `forwarded`: whether the worker has the document.
    pub fn record(&mut self, segment: usize, forwarded: bool) -> (taken: bool)
        requires
            segment < old(self).segments@.len(),
        ensures
            taken == forwarded,
            final(self).same_shard(old(self)),
            final(self).receiver == old(self).receiver,
            final(self).ready == old(self).ready,
            final(self).paths() == old(self).paths(),
            final(self).channels() == old(self).channels(),
            final(self).counts() == if forwarded {
                old(self).counts().update(
                    segment as int,
                    counted(old(self).counts()[segment as int]),
                )
            } else {
                old(self).counts()
            },
    {
        if forwarded {
            let count = self.segments[segment].1.documents;
            if count < u64::MAX {
                self.segments[segment].1.documents = count + 1;
            }
            assert(self.paths() =~= old(self).paths());
            assert(self.channels() =~= old(self).channels());
            assert(self.counts() =~= old(self).counts().update(
                segment as int,
                counted(old(self).counts()[segment as int]),
            ));
        }
        forwarded
    }
    /// The statistics of the shard.
    pub fn statistics(&self) -> (stats: IndexStats)
        ensures
            stats == self.stats(),
    {
        let mut total: u64 = 0;
        let mut k: usize = 0;
        while k < self.segments.len()
            invariant
                k <= self.segments@.len(),
                total_documents(self.counts().take(k as int)) <= u64::MAX ==> total
                    == total_documents(self.counts().take(k as int)),
                total_documents(self.counts().take(k as int)) > u64::MAX ==> total == u64::MAX,
            decreases self.segments@.len() - k,
        {
            let count = self.segments[k].1.documents;
            proof {
                let next = self.counts().take(k + 1);
                assert(next.drop_last() =~= self.counts().take(k as int));
                assert(next.last() == count);
            }
            total = if count > u64::MAX - total {
                u64::MAX
            } else {
                total + count
            };
            k = k + 1;
        }
        assert(self.counts().take(k as int) =~= self.counts());
        IndexStats { documents: total }
    }

    /// Whether carrying out `command` turns this manager into `after` and
    /// gives `handled`.
    ///
    /// The shard, the channels and the paths of the segments stay. A document
    /// goes to the segment that owns it, which counts one document more where
    /// its worker's channel took the document; a document that no segment owns
    /// changes nothing. Where the command came with a channel for the answer,
    /// the answer `true` is sent on it: the document was received. Statistics
    /// and readiness are answered from what the manager holds, and change
    /// nothing.
    pub open spec fn carries_out(self, command: IndexCommand, after: Manager, handled: Handled) -> bool {
        &&& after.same_shard(&self)
        &&& after.receiver == self.receiver
        &&& after.ready == self.ready
        &&& after.paths() == self.paths()
        &&& after.channels() == self.channels()
        &&& match command {
            IndexCommand::IndexDocument { document, response_channel } => match route_of(
                document.id,
                self.segments@.len(),
            ) {
                Some(owner) => {
                    &&& handled matches Handled::Routed { segment, forwarded, acknowledged }
                    &&& segment == owner
                    &&& acknowledged is Some <==> response_channel is Some
                    &&& acknowledged matches Some(answer) ==> answer.value
                    &&& after.counts() == if forwarded {
                        self.counts().update(owner as int, counted(self.counts()[owner as int]))
                    } else {
                        self.counts()
                    }
                },
                None => {
                    &&& handled matches Handled::Unroutable { acknowledged }
                    &&& acknowledged is Some <==> response_channel is Some
                    &&& acknowledged matches Some(answer) ==> answer.value
                    &&& after.counts() == self.counts()
                },
            },
            IndexCommand::Stats { response_channel } => {
                &&& handled matches Handled::Stats { stats, delivered }
                &&& stats == self.stats()
                &&& after.counts() == self.counts()
            },
            IndexCommand::Ready { response_channel } => {
                &&& handled matches Handled::Ready { ready, delivered }
                &&& ready == self.ready
                &&& after.counts() == self.counts()
            },
        }
    }

    /// Carries out one command.
    ///
    /// A document goes to the worker of the segment that owns it, without the
    /// channel for the answer: the manager answers itself, and its answer
    /// is `true` for every document it received, whatever became of it. What
    /// became of it is told in the result. A question about statistics or
    /// readiness is answered from what the manager holds. A channel that does
    /// not take an answer changes nothing else.
    pub fn handle(&mut self, command: IndexCommand) -> (handled: Handled)
        ensures
            old(self).carries_out(command, *final(self), handled),
    {
        match command {
            IndexCommand::IndexDocument { document, response_channel } => {
                match self.route(&document) {
                    Some(segment) => {
                        let forwarded = send_on(&self.segments[segment].0, forwarding(document));
                        self.record(segment, forwarded);
                        let acknowledged = answer(response_channel, true);
                        Handled::Routed { segment, forwarded, acknowledged }
                    },
                    None => Handled::Unroutable { acknowledged: answer(response_channel, true) },
                }
            },
            IndexCommand::Stats { response_channel } => {
                let stats = self.statistics();
                let delivered = send_on(&response_channel, stats);
                Handled::Stats { stats, delivered }
            },
            IndexCommand::Ready { response_channel } => {
                let ready = self.ready;
                let delivered = send_on(&response_channel, ready);
                Handled::Ready { ready, delivered }
            },
        }
    }

    /// Waits for the next command and carries it out.
    ///
    /// Which command comes, if any, is for the senders to decide. Where one
    /// comes, the manager and the result are what `handle` makes of it. `None`
    /// tells that no command can come any more, and then the manager stays as
    /// it is.
    pub fn run(&mut self) -> (handled: Option<Handled>)
        ensures
            handled matches Some(done) ==> exists|command: IndexCommand|
                #[trigger] old(self).carries_out(command, *final(self), done),
            handled is None ==> *final(self) == *old(self),
    {
        match receive_from(&self.receiver) {
            Some(command) => Some(self.handle(command)),
            None => None,
        }
    }
}

/// The command that hands `document` on to a worker: the same document, with
/// no channel for an answer.
pub fn forwarding(document: Document) -> (command: IndexCommand)
    ensures
        command matches IndexCommand::IndexDocument { document: handed, response_channel }
            && handed == document && response_channel is None,
{
    IndexCommand::IndexDocument { document, response_channel: None }
}

/// Sends `value` on `channel`, where there is one. The result is `None`
/// without a channel, and else the value with whether the channel took it.
pub fn answer(channel: Option<Sender<bool>>, value: bool) -> (sent: Option<Acknowledgment>)
    ensures
        sent is Some <==> channel is Some,
        sent matches Some(answer) ==> answer.value == value,
{
    match channel {
        Some(channel) => Some(Acknowledgment { value, delivered: send_on(&channel, value) }),
        None => None,
    }
}

/// A shard whose directory already holds segment files is given no new ones,
/// however many it holds and however many workers are configured.
pub proof fn lemma_bootstrap_keeps_existing_segments(existing: nat, workers: nat)
    requires
        existing > 0,
    ensures
        segments_to_create(existing, workers) == 0,
{
}

/// Laying out a shard twice lays it out once: when the segments that the first
/// pass asks for are there, the second pass asks for none. This holds from any
/// number of files to start with, as long as the two passes leave the directory
/// with a file in it.
pub proof fn lemma_bootstrap_is_idempotent(existing: nat, workers: nat)
    requires
        existing + workers > 0,
    ensures
        segments_to_create(existing + segments_to_create(existing, workers), workers) == 0,
{
}

/// A shard with an empty directory is given exactly as many segments as it has
/// workers: the files `0.db` to `workers - 1` `.db` in the shard's directory,
/// no two of them the same.
pub proof fn lemma_bootstrap_lays_out_every_segment(
    data_dir: Seq<char>,
    index: Seq<char>,
    shard_type: ShardType,
    workers: nat,
)
    ensures
        segments_to_create(0, workers) == workers,
        segment_file_paths(data_dir, index, shard_type, workers).len() == workers,
        forall|n: int|
            0 <= n < workers ==> #[trigger] segment_file_paths(
                data_dir,
                index,
                shard_type,
                workers,
            )[n] == segment_directory_path(data_dir, index, shard_type) + "/"@ + segment_file_name(
                n as nat,
            ),
        forall|n: int, m: int|
            0 <= n < workers && 0 <= m < workers && n != m ==> #[trigger] segment_file_paths(
                data_dir,
                index,
                shard_type,
                workers,
            )[n] != #[trigger] segment_file_paths(data_dir, index, shard_type, workers)[m],
{
    let paths = segment_file_paths(data_dir, index, shard_type, workers);
    assert forall|n: int, m: int| 0 <= n < workers && 0 <= m < workers && n != m implies paths[n]
        != paths[m] by {
        lemma_segment_paths_distinct(data_dir, index, shard_type, n as nat, m as nat);
    }
}

/// A document that a worker took counts once in the statistics: the sum over
/// the segments grows by one when the segment that took it counts one more.
pub proof fn lemma_count_adds_one(counts: Seq<u64>, segment: int)
    requires
        0 <= segment < counts.len(),
        counts[segment] < u64::MAX,
    ensures
        total_documents(counts.update(segment, counted(counts[segment]))) == total_documents(
            counts,
        ) + 1,
    decreases counts.len(),
{
    let after = counts.update(segment, counted(counts[segment]));
    if segment == counts.len() - 1 {
        assert(after.drop_last() =~= counts.drop_last());
    } else {
        lemma_count_adds_one(counts.drop_last(), segment);
        assert(after.drop_last() =~= counts.drop_last().update(
            segment,
            counted(counts.drop_last()[segment]),
        ));
    }
}

} // verus!
