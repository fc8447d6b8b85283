use saga::constants::DEFAULT_INDEX_STORE_WORKERS;
use saga::constants::TEST_DEFAULT_DATA_DIRECTORY;
use saga::document::Document;
use saga::layout::segment_directory;
use saga::layout::segment_path;
use saga::layout::segment_paths;
use saga::manager::Acknowledgment;
use saga::manager::Handled;
use saga::manager::IndexCommand;
use saga::manager::IndexStats;
use saga::manager::IndexWorker;
use saga::manager::Manager;
use saga::manager::StorageEngine;
use saga::shard::ShardType;
use std::sync::mpsc;

fn started(segments: usize) -> (mpsc::Sender<IndexCommand>, Manager, Vec<mpsc::Receiver<IndexCommand>>) {
    let (tx, rx): (mpsc::Sender<IndexCommand>, mpsc::Receiver<IndexCommand>) = mpsc::channel();
    let mut manager = Manager::new(
        "test_idx",
        TEST_DEFAULT_DATA_DIRECTORY,
        rx,
        StorageEngine::SQLite,
        ShardType::Primary,
    );
    let mut existing = manager.segments_to_initialize(&vec![]);
    existing.truncate(segments);
    let listeners = manager.start(existing);
    (tx, manager, listeners)
}

#[test]
fn test_create_manager() {
    let (tx, rx): (mpsc::Sender<IndexCommand>, mpsc::Receiver<IndexCommand>) = mpsc::channel();
    let mut manager = Manager::new(
        "test_idx",
        TEST_DEFAULT_DATA_DIRECTORY,
        rx,
        StorageEngine::SQLite,
        ShardType::Primary,
    );
    let existing = manager.segments_to_initialize(&vec![]);
    let _listeners = manager.start(existing);
    let (sub_tx, sub_rx): (mpsc::Sender<bool>, mpsc::Receiver<bool>) = mpsc::channel();
    let test_message = IndexCommand::Ready { response_channel: sub_tx };
    assert!(tx.send(test_message).is_ok());
    let handled = manager.run();
    let response = sub_rx.recv();
    println!("Response received: {:?}", response);
    assert_eq!(response, Ok(true));
    assert_eq!(handled, Some(Handled::Ready { ready: true, delivered: true }));
}

#[test]
fn segment_directory_follows_the_layout() {
    assert_eq!(
        segment_directory("/tmp/rustsearch", "test_idx", ShardType::Primary),
        "/tmp/rustsearch/indices/test_idx/segments/primary"
    );
    assert_eq!(
        segment_directory("/data", "logs", ShardType::Replica),
        "/data/indices/logs/segments/replica"
    );
}

#[test]
fn segment_path_ends_in_number_and_extension() {
    assert_eq!(
        segment_path("/tmp/rustsearch", "test_idx", ShardType::Primary, 0),
        "/tmp/rustsearch/indices/test_idx/segments/primary/0.db"
    );
    assert_eq!(
        segment_path("/data", "logs", ShardType::Replica, 65535),
        "/data/indices/logs/segments/replica/65535.db"
    );
}

#[test]
fn segment_paths_are_numbered_from_zero() {
    let paths = segment_paths("/d", "i", ShardType::Primary, 3);
    assert_eq!(
        paths,
        vec![
            "/d/indices/i/segments/primary/0.db".to_string(),
            "/d/indices/i/segments/primary/1.db".to_string(),
            "/d/indices/i/segments/primary/2.db".to_string()
        ]
    );
    assert_eq!(segment_paths("/d", "i", ShardType::Primary, 0).len(), 0);
}

#[test]
fn new_manager_has_default_workers_and_no_segments() {
    let (_tx, rx): (mpsc::Sender<IndexCommand>, mpsc::Receiver<IndexCommand>) = mpsc::channel();
    let manager = Manager::new("logs", "/data", rx, StorageEngine::Filesystem, ShardType::Replica);
    assert_eq!(manager.index_name, "logs");
    assert_eq!(manager.data_directory, "/data");
    assert_eq!(manager.workers, DEFAULT_INDEX_STORE_WORKERS);
    assert_eq!(manager.workers, 10);
    assert_eq!(manager.storage_engine, StorageEngine::Filesystem);
    assert_eq!(manager.shard_type, ShardType::Replica);
    assert_eq!(manager.segments.len(), 0);
    assert!(!manager.ready);
    assert_eq!(manager.segment_directory(), "/data/indices/logs/segments/replica");
}

#[test]
fn empty_directory_gets_every_segment() {
    let (_tx, rx): (mpsc::Sender<IndexCommand>, mpsc::Receiver<IndexCommand>) = mpsc::channel();
    let manager = Manager::new("logs", "/data", rx, StorageEngine::SQLite, ShardType::Primary);
    let plan = manager.segments_to_initialize(&vec![]);
    assert_eq!(plan.len(), 10);
    for n in 0..10 {
        assert_eq!(plan[n], format!("/data/indices/logs/segments/primary/{}.db", n));
    }
}

#[test]
fn directory_with_segments_gets_no_new_ones() {
    let (_tx, rx): (mpsc::Sender<IndexCommand>, mpsc::Receiver<IndexCommand>) = mpsc::channel();
    let manager = Manager::new("logs", "/data", rx, StorageEngine::SQLite, ShardType::Primary);
    let one = vec!["/data/indices/logs/segments/primary/0.db".to_string()];
    assert_eq!(manager.segments_to_initialize(&one).len(), 0);
    let stray = vec!["/data/indices/logs/segments/primary/notes.txt".to_string()];
    assert_eq!(manager.segments_to_initialize(&stray).len(), 0);
    let first = manager.segments_to_initialize(&vec![]);
    assert_eq!(manager.segments_to_initialize(&first).len(), 0);
}

#[test]
fn start_gives_one_worker_per_segment_in_order() {
    let (_tx, rx): (mpsc::Sender<IndexCommand>, mpsc::Receiver<IndexCommand>) = mpsc::channel();
    let mut manager = Manager::new("logs", "/data", rx, StorageEngine::SQLite, ShardType::Primary);
    let listeners = manager.start(vec!["b.db".to_string(), "a.db".to_string()]);
    assert_eq!(listeners.len(), 2);
    assert!(manager.ready);
    assert_eq!(manager.segments.len(), 2);
    assert_eq!(manager.segments[0].1.database_path, "b.db");
    assert_eq!(manager.segments[1].1.database_path, "a.db");
    assert_eq!(manager.segments[0].1.documents, 0);
    assert_eq!(manager.statistics(), IndexStats { documents: 0 });
}

#[test]
fn index_worker_starts_with_no_documents() {
    let worker = IndexWorker::new("7.db".to_string());
    assert_eq!(worker.database_path, "7.db");
    assert_eq!(worker.documents, 0);
}

#[test]
fn manager_is_not_ready_before_it_starts() {
    let (_tx, rx): (mpsc::Sender<IndexCommand>, mpsc::Receiver<IndexCommand>) = mpsc::channel();
    let mut manager = Manager::new("logs", "/data", rx, StorageEngine::SQLite, ShardType::Primary);
    let (sub_tx, sub_rx): (mpsc::Sender<bool>, mpsc::Receiver<bool>) = mpsc::channel();
    let handled = manager.handle(IndexCommand::Ready { response_channel: sub_tx });
    assert_eq!(handled, Handled::Ready { ready: false, delivered: true });
    assert_eq!(sub_rx.recv(), Ok(false));
}

#[test]
fn document_goes_to_the_segment_of_its_id() {
    let (_tx, mut manager, listeners) = started(4);
    let (ack_tx, ack_rx): (mpsc::Sender<bool>, mpsc::Receiver<bool>) = mpsc::channel();
    let handled = manager.handle(IndexCommand::IndexDocument {
        document: Document::new(6, "This is a test"),
        response_channel: Some(ack_tx),
    });
    assert_eq!(
        handled,
        Handled::Routed {
            segment: 2,
            forwarded: true,
            acknowledged: Some(Acknowledgment { value: true, delivered: true })
        }
    );
    assert_eq!(ack_rx.recv(), Ok(true));
    assert!(ack_rx.try_recv().is_err());
    assert_eq!(manager.route(&Document::new(6, "")), Some(2));
    assert_eq!(manager.route(&Document::new(4, "")), Some(0));
    assert_eq!(manager.route(&Document::new(u64::MAX, "")), Some(3));
    assert_eq!(manager.segments[2].1.documents, 1);
    assert_eq!(manager.segments[0].1.documents, 0);
    match listeners[2].try_recv() {
        Ok(IndexCommand::IndexDocument { document, response_channel }) => {
            assert_eq!(document.id, Some(6));
            assert_eq!(document.raw, "This is a test");
            assert!(response_channel.is_none());
        }
        _ => panic!("the worker of segment 2 was handed no document"),
    }
    assert!(listeners[0].try_recv().is_err());
    assert!(listeners[1].try_recv().is_err());
    assert!(listeners[3].try_recv().is_err());
}

#[test]
fn document_without_reply_channel_is_still_routed() {
    let (_tx, mut manager, _listeners) = started(10);
    let handled = manager.handle(IndexCommand::IndexDocument {
        document: Document::new(13, "x"),
        response_channel: None,
    });
    assert_eq!(handled, Handled::Routed { segment: 3, forwarded: true, acknowledged: None });
}

#[test]
fn document_without_id_is_not_routed() {
    let (_tx, mut manager, _listeners) = started(4);
    let (ack_tx, ack_rx): (mpsc::Sender<bool>, mpsc::Receiver<bool>) = mpsc::channel();
    let handled = manager.handle(IndexCommand::IndexDocument {
        document: Document::from_string("no id yet"),
        response_channel: Some(ack_tx),
    });
    assert_eq!(
        handled,
        Handled::Unroutable { acknowledged: Some(Acknowledgment { value: true, delivered: true }) }
    );
    assert_eq!(ack_rx.recv(), Ok(true));
    assert!(ack_rx.try_recv().is_err());
    assert_eq!(manager.route(&Document::from_string("no id yet")), None);
    assert_eq!(manager.statistics(), IndexStats { documents: 0 });
}

#[test]
fn document_is_not_routed_without_segments() {
    let (_tx, mut manager, _listeners) = started(0);
    let handled = manager.handle(IndexCommand::IndexDocument {
        document: Document::new(1, "x"),
        response_channel: None,
    });
    assert_eq!(handled, Handled::Unroutable { acknowledged: None });
}

#[test]
fn document_for_a_worker_that_is_gone_is_acknowledged_and_not_counted() {
    let (_tx, mut manager, listeners) = started(2);
    drop(listeners);
    let (ack_tx, ack_rx): (mpsc::Sender<bool>, mpsc::Receiver<bool>) = mpsc::channel();
    let handled = manager.handle(IndexCommand::IndexDocument {
        document: Document::new(1, "x"),
        response_channel: Some(ack_tx),
    });
    assert_eq!(
        handled,
        Handled::Routed {
            segment: 1,
            forwarded: false,
            acknowledged: Some(Acknowledgment { value: true, delivered: true })
        }
    );
    assert_eq!(ack_rx.recv(), Ok(true));
    assert!(ack_rx.try_recv().is_err());
    assert_eq!(manager.statistics(), IndexStats { documents: 0 });
}

#[test]
fn a_dropped_reply_channel_does_not_stop_the_manager() {
    let (_tx, mut manager, _listeners) = started(2);
    let (ack_tx, ack_rx): (mpsc::Sender<bool>, mpsc::Receiver<bool>) = mpsc::channel();
    drop(ack_rx);
    let handled = manager.handle(IndexCommand::IndexDocument {
        document: Document::new(1, "x"),
        response_channel: Some(ack_tx),
    });
    assert_eq!(
        handled,
        Handled::Routed {
            segment: 1,
            forwarded: true,
            acknowledged: Some(Acknowledgment { value: true, delivered: false })
        }
    );
    let (stats_tx, stats_rx): (mpsc::Sender<IndexStats>, mpsc::Receiver<IndexStats>) =
        mpsc::channel();
    drop(stats_rx);
    let handled = manager.handle(IndexCommand::Stats { response_channel: stats_tx });
    assert_eq!(
        handled,
        Handled::Stats { stats: IndexStats { documents: 1 }, delivered: false }
    );
}

#[test]
fn stats_add_up_the_segments() {
    let (_tx, mut manager, _listeners) = started(3);
    for id in [0u64, 1, 2, 3, 4, 6, 9] {
        manager.handle(IndexCommand::IndexDocument {
            document: Document::new(id, "x"),
            response_channel: None,
        });
    }
    assert_eq!(manager.segments[0].1.documents, 4);
    assert_eq!(manager.segments[1].1.documents, 2);
    assert_eq!(manager.segments[2].1.documents, 1);
    let (stats_tx, stats_rx): (mpsc::Sender<IndexStats>, mpsc::Receiver<IndexStats>) =
        mpsc::channel();
    let handled = manager.handle(IndexCommand::Stats { response_channel: stats_tx });
    assert_eq!(handled, Handled::Stats { stats: IndexStats { documents: 7 }, delivered: true });
    assert_eq!(stats_rx.recv(), Ok(IndexStats { documents: 7 }));
}

#[test]
fn stats_stop_at_the_largest_count() {
    let (_tx, mut manager, _listeners) = started(2);
    manager.segments[0].1.documents = u64::MAX - 1;
    manager.segments[1].1.documents = 5;
    assert_eq!(manager.statistics(), IndexStats { documents: u64::MAX });
    manager.segments[1].1.documents = 1;
    assert_eq!(manager.statistics(), IndexStats { documents: u64::MAX });
    manager.segments[1].1.documents = 0;
    assert_eq!(manager.statistics(), IndexStats { documents: u64::MAX - 1 });
}

#[test]
fn record_counts_only_what_was_forwarded() {
    let (_tx, mut manager, _listeners) = started(2);
    assert!(manager.record(1, true));
    assert!(!manager.record(1, false));
    assert_eq!(manager.segments[1].1.documents, 1);
    manager.segments[0].1.documents = u64::MAX;
    assert!(manager.record(0, true));
    assert_eq!(manager.segments[0].1.documents, u64::MAX);
}

#[test]
fn run_takes_commands_in_the_order_sent() {
    let (tx, mut manager, _listeners) = started(2);
    let (stats_tx, stats_rx): (mpsc::Sender<IndexStats>, mpsc::Receiver<IndexStats>) =
        mpsc::channel();
    assert!(tx
        .send(IndexCommand::IndexDocument { document: Document::new(5, "a"), response_channel: None })
        .is_ok());
    assert!(tx.send(IndexCommand::Stats { response_channel: stats_tx }).is_ok());
    assert_eq!(
        manager.run(),
        Some(Handled::Routed { segment: 1, forwarded: true, acknowledged: None })
    );
    assert_eq!(
        manager.run(),
        Some(Handled::Stats { stats: IndexStats { documents: 1 }, delivered: true })
    );
    assert_eq!(stats_rx.recv(), Ok(IndexStats { documents: 1 }));
    drop(tx);
    assert_eq!(manager.run(), None);
}
