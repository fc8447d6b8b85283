use saga::index::InvertedIndex;
use saga::index::InvertedIndexError;

#[test]
fn test_create_inverted_index() {
    let index = InvertedIndex::new("Test", "TestOwner", 1, 1);
    assert_eq!(index.name, "Test");
}

#[test]
fn inverted_index_keeps_owner_and_shard_counts() {
    let index = InvertedIndex::new("logs", "fletcher", 3, 2);
    assert_eq!(index.owner, Some("fletcher".to_string()));
    assert_eq!(index.primary_shards, 3);
    assert_eq!(index.replica_shards, 2);
}

#[test]
fn inverted_index_error_keeps_its_message() {
    let error = InvertedIndexError::new("Test error");
    assert_eq!(error.description(), "Test error");
}
