use ezsyslog::graph::StoreModel;

#[test]
fn merge_idempotence_one_address_two_messages() {
    let mut g = StoreModel::new();
    let ip = "10.0.0.1".to_string();
    let id1 = g.ingest("first", &ip);
    let id2 = g.ingest("second", &ip);
    assert_eq!(g.addresses.len(), 1);
    assert_eq!(g.addresses[0], "10.0.0.1");
    assert_eq!(g.messages.len(), 2);
    assert_ne!(id1, id2);
    assert_eq!(g.messages[0].addr, 0);
    assert_eq!(g.messages[1].addr, 0);
    assert_eq!(g.messages[0].text, "first");
    assert_eq!(g.messages[1].text, "second");
}

#[test]
fn identical_texts_still_create_two_messages() {
    let mut g = StoreModel::new();
    let ip = "10.0.0.1".to_string();
    g.ingest("same", &ip);
    g.ingest("same", &ip);
    assert_eq!(g.messages.len(), 2);
    assert_ne!(g.messages[0].id, g.messages[1].id);
}

#[test]
fn identifiers_are_monotonic_and_broadcast_value_matches() {
    let mut g = StoreModel::new();
    let a = "1.1.1.1".to_string();
    let b = "2.2.2.2".to_string();
    let mut ids = Vec::new();
    ids.push(g.ingest("m0", &a));
    ids.push(g.ingest("m1", &b));
    ids.push(g.ingest("m2", &a));
    for w in ids.windows(2) {
        assert!(w[0] < w[1]);
    }
    // The identifier handed back is exactly the created node's.
    for (k, id) in ids.iter().enumerate() {
        assert_eq!(g.messages[k].id, *id);
    }
}

#[test]
fn distinct_addresses_get_distinct_nodes() {
    let mut g = StoreModel::new();
    g.ingest("x", &"1.1.1.1".to_string());
    g.ingest("y", &"2.2.2.2".to_string());
    g.ingest("z", &"1.1.1.1".to_string());
    assert_eq!(g.addresses.len(), 2);
}
