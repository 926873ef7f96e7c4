use mothership::{
    decimal_text, decode_entry, decode_record, encode_record, format_address, parse_record,
    utf8_text, DirectoryStore, NodeInfo, PreviousRecord, Registry, ResolveError,
};

fn temporary_db() -> sled::Db {
    sled::Config::new().temporary(true).open().unwrap()
}

fn registry_over(db: &sled::Db) -> Registry {
    Registry::new(DirectoryStore::new(db.clone()))
}

fn expect_info(r: Result<NodeInfo, ResolveError>) -> (String, String, String) {
    match r {
        Ok(info) => (info.node_address, info.node_id, info.node_topic),
        Err(e) => panic!("expected an owner, got {:?}", e),
    }
}

fn expect_error(r: Result<NodeInfo, ResolveError>) -> ResolveError {
    match r {
        Ok(info) => panic!("expected an error, got {}|{}", info.node_address, info.node_id),
        Err(e) => e,
    }
}

#[test]
fn telemetry_scenario() {
    let db = temporary_db();
    let mut registry = registry_over(&db);
    let previous = registry.register("telemetry", 9000, "10.0.0.5", "node-abc").unwrap();
    assert!(matches!(previous, PreviousRecord::Absent));
    let raw = db.get("telemetry".as_bytes()).unwrap().unwrap();
    assert_eq!(raw.to_vec(), b"10.0.0.5:9000|node-abc".to_vec());
    let (address, node_id, topic) = expect_info(registry.resolve("telemetry"));
    assert_eq!(address, "10.0.0.5:9000");
    assert_eq!(node_id, "node-abc");
    assert_eq!(topic, "telemetry");
}

#[test]
fn register_then_resolve_round_trip() {
    let db = temporary_db();
    let mut registry = registry_over(&db);
    registry.register("metrics", 80, "192.168.1.20", "n-1").unwrap();
    registry.register("logs", 65535, "::1", "n-2").unwrap();
    assert_eq!(
        expect_info(registry.resolve("metrics")),
        ("192.168.1.20:80".to_string(), "n-1".to_string(), "metrics".to_string())
    );
    assert_eq!(
        expect_info(registry.resolve("logs")),
        ("::1:65535".to_string(), "n-2".to_string(), "logs".to_string())
    );
}

#[test]
fn last_write_wins() {
    let db = temporary_db();
    let mut registry = registry_over(&db);
    registry.register("orders", 7000, "10.0.0.1", "first").unwrap();
    let previous = registry.register("orders", 7001, "10.0.0.2", "second").unwrap();
    match previous {
        PreviousRecord::Text(text) => assert_eq!(text, "10.0.0.1:7000|first"),
        _ => panic!("the first record should be reported as replaced"),
    }
    assert_eq!(
        expect_info(registry.resolve("orders")),
        ("10.0.0.2:7001".to_string(), "second".to_string(), "orders".to_string())
    );
}

#[test]
fn never_registered_is_not_found() {
    let db = temporary_db();
    let registry = registry_over(&db);
    assert_eq!(expect_error(registry.resolve("never-registered")), ResolveError::TopicNotFound);
}

#[test]
fn invalid_utf8_is_corrupt() {
    let db = temporary_db();
    db.insert("bad".as_bytes(), vec![0xff, 0xfe, b'|', b'x']).unwrap();
    let registry = registry_over(&db);
    assert_eq!(expect_error(registry.resolve("bad")), ResolveError::CorruptRecord);
}

#[test]
fn missing_separator_is_corrupt() {
    let db = temporary_db();
    db.insert("plain".as_bytes(), b"10.0.0.5:9000".to_vec()).unwrap();
    let registry = registry_over(&db);
    assert_eq!(expect_error(registry.resolve("plain")), ResolveError::CorruptRecord);
}

#[test]
fn two_separators_are_corrupt() {
    let db = temporary_db();
    db.insert("double".as_bytes(), b"10.0.0.5:9000|a|b".to_vec()).unwrap();
    let registry = registry_over(&db);
    assert_eq!(expect_error(registry.resolve("double")), ResolveError::CorruptRecord);
}

#[test]
fn resolve_twice_gives_the_same_answer() {
    let db = temporary_db();
    let mut registry = registry_over(&db);
    registry.register("jobs", 1234, "10.1.2.3", "worker").unwrap();
    let first = expect_info(registry.resolve("jobs"));
    let second = expect_info(registry.resolve("jobs"));
    assert_eq!(first, second);
    let missing1 = expect_error(registry.resolve("absent"));
    let missing2 = expect_error(registry.resolve("absent"));
    assert_eq!(missing1, missing2);
}

#[test]
fn undecodable_previous_record_does_not_block_registration() {
    let db = temporary_db();
    db.insert("t".as_bytes(), vec![0xc3]).unwrap();
    let mut registry = registry_over(&db);
    let previous = registry.register("t", 1, "h", "n").unwrap();
    assert!(matches!(previous, PreviousRecord::Undecodable));
    assert_eq!(
        expect_info(registry.resolve("t")),
        ("h:1".to_string(), "n".to_string(), "t".to_string())
    );
}

#[test]
fn registrations_survive_a_new_handle() {
    let db = temporary_db();
    registry_over(&db).register("shared", 42, "10.0.0.9", "node").unwrap();
    let other = registry_over(&db);
    assert_eq!(
        expect_info(other.resolve("shared")),
        ("10.0.0.9:42".to_string(), "node".to_string(), "shared".to_string())
    );
}

#[test]
fn decimal_text_values() {
    assert_eq!(decimal_text(0), "0");
    assert_eq!(decimal_text(7), "7");
    assert_eq!(decimal_text(10), "10");
    assert_eq!(decimal_text(9000), "9000");
    assert_eq!(decimal_text(65535), "65535");
}

#[test]
fn format_address_joins_host_and_port() {
    assert_eq!(format_address("10.0.0.5", 9000), "10.0.0.5:9000");
    assert_eq!(format_address("", 0), ":0");
}

#[test]
fn encode_record_bytes() {
    assert_eq!(encode_record("10.0.0.5:9000", "node-abc"), b"10.0.0.5:9000|node-abc".to_vec());
    assert_eq!(encode_record("é", "ü"), "é|ü".as_bytes().to_vec());
}

#[test]
fn parse_record_cases() {
    let r = parse_record("a:1|b").unwrap();
    assert_eq!((r.address.as_str(), r.node_id.as_str()), ("a:1", "b"));
    let r = parse_record("|").unwrap();
    assert_eq!((r.address.as_str(), r.node_id.as_str()), ("", ""));
    let r = parse_record("ä|ö").unwrap();
    assert_eq!((r.address.as_str(), r.node_id.as_str()), ("ä", "ö"));
    assert!(parse_record("").is_none());
    assert!(parse_record("abc").is_none());
    assert!(parse_record("a||b").is_none());
    assert!(parse_record("|a|").is_none());
}

#[test]
fn decode_record_cases() {
    let r = decode_record(b"x:2|y".to_vec()).unwrap();
    assert_eq!((r.address.as_str(), r.node_id.as_str()), ("x:2", "y"));
    assert!(decode_record(vec![b'a', b'|', 0x80]).is_none());
    assert!(decode_record(b"no-separator".to_vec()).is_none());
}

#[test]
fn utf8_text_cases() {
    assert_eq!(utf8_text("größe".as_bytes().to_vec()).unwrap(), "größe");
    assert_eq!(utf8_text(Vec::new()).unwrap(), "");
    assert!(utf8_text(vec![0xed, 0xa0, 0x80]).is_none());
}

#[test]
fn decode_entry_cases() {
    assert_eq!(expect_error(decode_entry("t", None)), ResolveError::TopicNotFound);
    assert_eq!(expect_error(decode_entry("t", Some(vec![0xff]))), ResolveError::CorruptRecord);
    assert_eq!(
        expect_info(decode_entry("t", Some(b"h:3|n".to_vec()))),
        ("h:3".to_string(), "n".to_string(), "t".to_string())
    );
}
