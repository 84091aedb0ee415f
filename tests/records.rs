use swss_common::{
    NativeStatus, RAW_EXCEPTION_NONE,
    random_cxx_string, random_fvs, random_kfv, random_kfvs, random_port, random_string, random_unix_sock,
    ConfigDBConnector, ConsumerStateTable, CxxString, DbConnector, EventPublisher, FieldValues, KeyOpFieldValues,
    KeyOperation, Logger, LoggerConfigChangeHandler, NativeHeap, SonicV2Connector, SubscriberStateTable, Table,
    make_key_op_field_values_array, RAW_KEY_OPERATION_DEL, RAW_KEY_OPERATION_SET,
};

#[test]
fn key_operation_parses_in_any_case() {
    assert_eq!("SET".parse::<KeyOperation>().unwrap(), KeyOperation::Write);
    assert_eq!("set".parse::<KeyOperation>().unwrap(), KeyOperation::Write);
    assert_eq!("dEl".parse::<KeyOperation>().unwrap(), KeyOperation::Del);
    let err = "SETX".parse::<KeyOperation>().unwrap_err();
    assert_eq!(err.to_string(), r#"A KeyOperation String must be "SET" or "DEL", but was SETX"#);
    assert!(KeyOperation::parse("").is_err());
    assert!(KeyOperation::parse("DE").is_err());
    assert!(KeyOperation::parse("ßET").is_err());
}

#[test]
fn key_operation_raw_codes() {
    assert_eq!(KeyOperation::Write.as_raw(), RAW_KEY_OPERATION_SET);
    assert_eq!(KeyOperation::Del.as_raw(), RAW_KEY_OPERATION_DEL);
    assert_eq!(KeyOperation::from_raw(RAW_KEY_OPERATION_SET), KeyOperation::Write);
    assert_eq!(KeyOperation::from_raw(RAW_KEY_OPERATION_DEL), KeyOperation::Del);
}

#[test]
fn field_values_insert_replaces_and_equality_ignores_order() {
    let mut a = FieldValues::new();
    a.insert("x".to_string(), CxxString::new(b"1"));
    a.insert("y".to_string(), CxxString::new(b"2"));
    a.insert("x".to_string(), CxxString::new(b"3"));
    assert_eq!(a.len(), 2);
    assert_eq!(a.get("x").unwrap().as_bytes(), b"3");

    let mut b = FieldValues::new();
    b.insert("y".to_string(), CxxString::new(b"2"));
    b.insert("x".to_string(), CxxString::new(b"3"));
    assert!(a == b);
    b.insert("x".to_string(), CxxString::new(b"4"));
    assert!(a != b);
}

#[test]
fn record_constructors() {
    let r = KeyOpFieldValues::set("k".to_string(), vec![("f".to_string(), CxxString::new(b"v"))]);
    assert_eq!(r.operation, KeyOperation::Write);
    assert_eq!(r.field_values.len(), 1);
    let d = KeyOpFieldValues::del("k".to_string());
    assert_eq!(d.operation, KeyOperation::Del);
    assert!(d.field_values.is_empty());
    assert!(r != d);
}

#[test]
fn cxx_string_views() {
    let s = CxxString::new("hello".as_bytes());
    let v = s.as_cxx_str();
    assert_eq!(v.len(), 5);
    assert!(!v.is_empty());
    assert_eq!(v.to_str().unwrap(), "hello");
    let bad = CxxString::new(&[b'a', 0xFF, b'b']);
    assert!(bad.as_cxx_str().to_str().is_err());
    assert_eq!(bad.as_cxx_str().to_string_lossy(), "a\u{FFFD}b");
    assert!(CxxString::new(b"").as_cxx_str().is_empty());
    assert_eq!(s.clone(), s);
}

#[test]
fn random_helpers_give_encodable_records() {
    let s = random_string();
    assert!(!s.is_empty() && s.chars().all(|c| c.is_ascii_hexdigit() && !c.is_ascii_lowercase()));
    assert!(!random_cxx_string().as_cxx_str().is_empty());
    let fvs = random_fvs();
    assert!(fvs.len() > 0 && fvs.len() < 1000);
    let kfv = random_kfv();
    assert_eq!(kfv.operation == KeyOperation::Write, !kfv.field_values.is_empty());
    let kfvs = random_kfvs();
    assert_eq!(kfvs.len(), 100);
    assert!(make_key_op_field_values_array(&kfvs).is_ok());
    let sock = random_unix_sock();
    assert!(sock.starts_with("/tmp/swss-common-testing-") && sock.ends_with(".sock"));
    let port = random_port();
    assert!((1000..65535).contains(&port));
}

struct Recorder(Vec<String>);

impl LoggerConfigChangeHandler for Recorder {
    fn on_log_level_change(&mut self, level: &str) {
        self.0.push(format!("level={level}"));
    }

    fn on_log_output_change(&mut self, output: &str) {
        self.0.push(format!("output={output}"));
    }
}

#[test]
fn logger_defaults_and_changes() {
    let mut logger = Logger::default();
    assert_eq!(logger.level(), "INFO");
    assert_eq!(logger.output(), "STDOUT");
    let mut rec = Recorder(Vec::new());
    logger.change_level(&mut rec, "NOTICE");
    logger.change_output(&mut rec, "SYSLOG");
    assert_eq!(logger.level(), "NOTICE");
    assert_eq!(logger.output(), "SYSLOG");
    assert_eq!(rec.0, vec!["level=NOTICE".to_string(), "output=SYSLOG".to_string()]);
}

#[test]
fn connectors_keep_their_parameters() {
    let mut heap = NativeHeap::new();
    let v2 = SonicV2Connector::new(&mut heap, true, Some("test_namespace".to_string()), success()).unwrap();
    assert!(v2.use_unix_socket_path());
    assert_eq!(v2.netns(), "test_namespace");
    let cfg = ConfigDBConnector::new(&mut heap, false, None, success()).unwrap();
    assert!(!cfg.use_unix_socket_path());
    assert_eq!(cfg.netns(), "");
    let publisher = EventPublisher::new(&mut heap, "sonic-events-bgp", success()).unwrap();
    assert_eq!(publisher.event_source(), "sonic-events-bgp");
    assert!(EventPublisher::new(&mut heap, "a\0b", success()).is_err());
}

#[test]
fn tables_keep_their_names() {
    let mut heap = NativeHeap::new();
    let db = DbConnector::new_unix(&mut heap, 0, "/tmp/s.sock".to_string(), 0, success()).unwrap();
    let mut cst = ConsumerStateTable::new(&mut heap, db, "table_a", Some(128), None, success()).unwrap();
    assert_eq!(cst.table_name(), "table_a");
    assert!(matches!(cst.db_connector_mut().connection(), swss_common::DbConnectionInfo::Unix { db_id: 0, .. }));
    let db2 = DbConnector::new_unix(&mut heap, 1, "/tmp/s.sock".to_string(), 0, success()).unwrap();
    let sst = SubscriberStateTable::new(&mut heap, db2, "table_b", None, None, success()).unwrap();
    assert_eq!(sst.table_name(), "table_b");
    let db3 = DbConnector::new_unix(&mut heap, 2, "/tmp/s.sock".to_string(), 0, success()).unwrap();
    let t = Table::new(&mut heap, db3, "mytable", success()).unwrap();
    assert_eq!(t.get_name(), "mytable");
    let db4 = DbConnector::new_unix(&mut heap, 2, "/tmp/s.sock".to_string(), 0, success()).unwrap();
    assert!(Table::new(&mut heap, db4, "bad\0name", success()).is_err());
}

fn success() -> NativeStatus {
    NativeStatus { exception: RAW_EXCEPTION_NONE, message: None, location: None }
}
