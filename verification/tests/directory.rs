use instrument::brokers::BrokerDirectory;

#[test]
fn key_of_finds_inserted_brokers() {
    let mut d = BrokerDirectory::new();
    assert_eq!(d.key_of(&"b1".to_string()), None);
    d.insert("b1".to_string(), "k1".to_string());
    d.insert("b2".to_string(), "k2".to_string());
    assert_eq!(d.key_of(&"b1".to_string()), Some(&"k1".to_string()));
    assert_eq!(d.key_of(&"b2".to_string()), Some(&"k2".to_string()));
    assert_eq!(d.key_of(&"b3".to_string()), None);
}

#[test]
fn insert_replaces_the_key_of_a_known_broker() {
    let mut d = BrokerDirectory::new();
    d.insert("b1".to_string(), "k1".to_string());
    d.insert("b1".to_string(), "k9".to_string());
    assert_eq!(d.key_of(&"b1".to_string()), Some(&"k9".to_string()));
}
