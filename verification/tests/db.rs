use saga::db::MetadataDB;

#[test]
fn new_database_lists_no_nodes() {
    let mut db = MetadataDB::new();
    assert_eq!(db.list_nodes().len(), 0);
    db.create_cluster_table();
    db.create_node_table();
    assert_eq!(db.list_nodes().len(), 0);
    assert_eq!(db.address("n1"), None);
}

#[test]
fn registering_needs_the_table_of_nodes() {
    let mut db = MetadataDB::new();
    assert!(!db.register_node("n1", "127.0.0.1", 9000));
    assert_eq!(db.list_nodes().len(), 0);
    db.create_cluster_table();
    assert!(!db.register_node("n1", "127.0.0.1", 9000));
    db.create_node_table();
    assert!(db.register_node("n1", "127.0.0.1", 9000));
    assert_eq!(db.list_nodes(), vec!["n1"]);
}

#[test]
fn creating_a_table_again_keeps_its_rows() {
    let mut db = MetadataDB::new();
    db.create_node_table();
    assert!(db.register_node("n1", "h", 1));
    db.create_node_table();
    db.create_cluster_table();
    db.create_cluster_table();
    assert_eq!(db.list_nodes(), vec!["n1"]);
    assert_eq!(db.address("n1"), Some(("h".to_string(), 1)));
}

#[test]
fn registering_twice_keeps_the_latest_address() {
    let mut db = MetadataDB::new();
    db.create_node_table();
    assert!(db.register_node("n1", "127.0.0.1", 9000));
    assert!(db.register_node("n1", "10.0.0.7", 9001));
    assert_eq!(db.list_nodes(), vec!["n1"]);
    assert_eq!(db.address("n1"), Some(("10.0.0.7".to_string(), 9001)));
}

#[test]
fn registering_the_same_address_again_changes_nothing() {
    let mut db = MetadataDB::new();
    db.create_node_table();
    assert!(db.register_node("n1", "127.0.0.1", 9000));
    assert!(db.register_node("n1", "127.0.0.1", 9000));
    assert_eq!(db.list_nodes(), vec!["n1"]);
    assert_eq!(db.address("n1"), Some(("127.0.0.1".to_string(), 9000)));
}

#[test]
fn nodes_are_listed_in_the_order_of_first_registration() {
    let mut db = MetadataDB::new();
    db.create_node_table();
    assert!(db.register_node("zeta", "h1", 1));
    assert!(db.register_node("alpha", "h2", 2));
    assert!(db.register_node("mid", "h3", 3));
    assert!(db.register_node("alpha", "h4", 4));
    assert!(db.register_node("zeta", "h5", 5));
    assert_eq!(db.list_nodes(), vec!["zeta", "alpha", "mid"]);
    assert_eq!(db.address("zeta"), Some(("h5".to_string(), 5)));
    assert_eq!(db.address("alpha"), Some(("h4".to_string(), 4)));
    assert_eq!(db.address("mid"), Some(("h3".to_string(), 3)));
    assert_eq!(db.address("Alpha"), None);
    assert_eq!(db.address(""), None);
}
