//! What a store of segments must offer, and the worker that drives one.

use crate::channel::send_on;
use crate::document::Document;
use crate::index::InvertedIndexError;
use crate::manager::answer;
use crate::manager::counted;
use crate::manager::Acknowledgment;
use crate::manager::IndexCommand;
use crate::manager::IndexStats;
use vstd::prelude::*;

verus! {

/// The SQLite error type, `rusqlite::Error`, which opening a store may return.
#[verifier::external_type_specification]
#[verifier::external_body]
pub struct ExSqliteError(rusqlite::Error);

/// Something that can keep documents and give them back.
pub trait IndexStore: Sized {
    /// Opens the store at `path`, or makes a new one there.
    fn open(name: &str, path: &str) -> Result<Self, rusqlite::Error>;

    /// Closes the store without deleting it.
    fn close(&mut self) -> Result<(), InvertedIndexError>;

    /// Saves a document.
    fn save_document(&mut self, document: Document) -> Result<(), InvertedIndexError>;

    /// Deletes the document with the given id.
    fn delete_document_by_id(&mut self, id: u64) -> Result<(), InvertedIndexError>;

    /// Fetches the document with the given id.
    fn document_by_id(&mut self, id: u64) -> Result<Document, InvertedIndexError>;
}

/// What a worker did with one command.
#[derive(Clone, Copy, Debug, PartialEq, Eq, Structural)]
pub enum Applied {
    /// A document was offered to the store. `saved` tells whether the store
    /// kept it; `acknowledged` is `None` where no answer was asked for, and
    /// else the answer that was sent.
    Saved { saved: bool, acknowledged: Option<Acknowledgment> },
    /// The statistics were asked for.
    Stats { stats: IndexStats, delivered: bool },
    /// Readiness was asked for; a worker that answers is ready.
    Ready { delivered: bool },
}

/// The worker of one segment: the store of the segment and the number of
/// documents saved in it by this worker.
pub struct SegmentWorker<S: IndexStore> {
    /// The store of the segment.
    pub store: S,
    /// Number of documents that the store kept; it stops at `u64::MAX`.
    pub documents: u64,
}

impl<S: IndexStore> SegmentWorker<S> {
    /// A worker on `store` that has saved nothing yet.
    pub fn new(store: S) -> (worker: SegmentWorker<S>)
        ensures
            worker.store == store,
            worker.documents == 0,
    {
        SegmentWorker { store, documents: 0 }
    }

    /// Counts a document that the store was asked to save. Returns the answer
    /// owed to the sender, which is whether the store kept the document.
    pub fn record(&mut self, outcome: &Result<(), InvertedIndexError>) -> (saved: bool)
        ensures
            saved == outcome is Ok,
            final(self).store == old(self).store,
            final(self).documents == if outcome is Ok {
                counted(old(self).documents)
            } else {
                old(self).documents
            },
    {
        match outcome {
            Ok(_) => {
                if self.documents < u64::MAX {
                    self.documents = self.documents + 1;
                }
                true
            },
            Err(_) => false,
        }
    }

    /// Carries out one command on the store.
    ///
    /// A document is saved, and the answer, where one is asked for, says
    /// whether the store kept it. Statistics and readiness are answered from
    /// what the worker holds, and leave the store alone.
    pub fn apply(&mut self, command: IndexCommand) -> (applied: Applied)
        ensures
            match command {
                IndexCommand::IndexDocument { document, response_channel } => {
                    &&& applied matches Applied::Saved { saved, acknowledged }
                    &&& acknowledged is Some <==> response_channel is Some
                    &&& acknowledged matches Some(answer) ==> answer.value == saved
                    &&& final(self).documents == if saved {
                        counted(old(self).documents)
                    } else {
                        old(self).documents
                    }
                },
                IndexCommand::Stats { response_channel } => {
                    &&& applied matches Applied::Stats { stats, delivered }
                    &&& stats.documents == old(self).documents
                    &&& *final(self) == *old(self)
                },
                IndexCommand::Ready { response_channel } => {
                    &&& applied is Ready
                    &&& *final(self) == *old(self)
                },
            },
    {
        match command {
            IndexCommand::IndexDocument { document, response_channel } => {
                let outcome = self.store.save_document(document);
                let saved = self.record(&outcome);
                let acknowledged = answer(response_channel, saved);
                Applied::Saved { saved, acknowledged }
            },
            IndexCommand::Stats { response_channel } => {
                let stats = IndexStats { documents: self.documents };
                let delivered = send_on(&response_channel, stats);
                Applied::Stats { stats, delivered }
            },
            IndexCommand::Ready { response_channel } => {
                let delivered = send_on(&response_channel, true);
                Applied::Ready { delivered }
            },
        }
    }
}

} // verus!
