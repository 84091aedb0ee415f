use swss_common::{
    NativeString, read_field_value_array, read_key_op_array, ConsumerStateTable, CxxString, KeyOpFieldValues, ProducerStateTable,
    SubscriberStateTable, Table, ZmqClient, ZmqProducerStateTable,
    check_status, DbConnectionInfo, DbConnector, DropGuard, Exception, ExceptionKind, NativeHeap, NativeStatus,
    ReadinessWaiter, SelectResult, WaitAction, WaitEvent, ZmqConsumerStateTable, ZmqServer, RAW_EXCEPTION_NONE,
    RAW_SELECT_DATA, RAW_SELECT_SIGNAL, RAW_SELECT_TIMEOUT,
};

#[test]
fn guard_released_at_second_drop_wrapper_first() {
    let mut heap = NativeHeap::new();
    let handle = heap.allocate();
    let mut guard = DropGuard::new(handle);
    guard.share();
    assert_eq!(guard.holder_count(), 2);

    assert!(!guard.release(&mut heap));
    assert!(heap.is_live(handle));
    assert!(guard.release(&mut heap));
    assert!(!heap.is_live(handle));
    assert_eq!(guard.holder_count(), 0);
}

#[test]
fn zmq_consumer_table_outlives_until_server_lets_go() {
    let mut heap = NativeHeap::new();
    let db = DbConnector::new_unix(&mut heap, 0, "/tmp/redis.sock".to_string(), 1000, ok_status()).unwrap();
    let mut server = ZmqServer::new(&mut heap, "tcp://127.0.0.1:5555", ok_status()).unwrap();
    let server_handle = server.handle_id();
    let table = ZmqConsumerStateTable::new(&mut heap, db, "table_a", &mut server, None, None, ok_status()).unwrap();
    let table_handle = table.handle_id();
    assert_eq!(server.guard_count(), 1);

    // wrapper first: the handle stays, the server still holds it
    assert!(!table.close(&mut heap, server.handlers()));
    assert!(heap.is_live(table_handle));

    // registry second: the dispatcher stops, then the handle goes with it
    let list = server.close(&mut heap);
    assert!(!heap.is_live(table_handle));
    assert!(!heap.is_live(server_handle));
    assert_eq!(list.holder_count(0), 0);
}

#[test]
fn zmq_consumer_table_released_by_wrapper_after_server() {
    let mut heap = NativeHeap::new();
    let db = DbConnector::new_named(&mut heap, "APPL_DB".to_string(), false, 0, ok_status()).unwrap();
    let mut server = ZmqServer::new(&mut heap, "ipc:///tmp/zmq", ok_status()).unwrap();
    let table = ZmqConsumerStateTable::new(&mut heap, db, "table_b", &mut server, Some(10), Some(1), ok_status()).unwrap();
    let table_handle = table.handle_id();

    // registry first: the server stops, the table's handle stays
    let server_handle = server.handle_id();
    let mut list = server.close(&mut heap);
    assert!(!heap.is_live(server_handle));
    assert!(heap.is_live(table_handle));
    assert_eq!(list.holder_count(0), 1);

    // wrapper second: released exactly now
    assert!(table.close(&mut heap, &mut list));
    assert!(!heap.is_live(table_handle));
}

#[test]
fn readiness_pending_record_gives_data_once() {
    let mut waiter = ReadinessWaiter::new();
    waiter.begin(200, false);
    assert_eq!(waiter.on_event(WaitEvent::Readable { newest: 1 }), WaitAction::Return(SelectResult::Data));

    waiter.begin(200, false);
    assert_eq!(waiter.on_event(WaitEvent::Readable { newest: 1 }), WaitAction::Wait { remaining_ms: 200 });
    assert_eq!(waiter.on_event(WaitEvent::Elapsed { ms: 199 }), WaitAction::Wait { remaining_ms: 1 });
    assert_eq!(waiter.on_event(WaitEvent::Elapsed { ms: 1 }), WaitAction::Return(SelectResult::Timeout));
}

#[test]
fn readiness_empty_queue_times_out_not_before_timeout() {
    let mut waiter = ReadinessWaiter::new();
    waiter.begin(200, true);
    assert_eq!(waiter.on_event(WaitEvent::Elapsed { ms: 150 }), WaitAction::Wait { remaining_ms: 50 });
    assert_eq!(waiter.on_event(WaitEvent::Elapsed { ms: 60 }), WaitAction::Return(SelectResult::Timeout));
    assert!(waiter.elapsed_ms >= 200);
}

#[test]
fn readiness_signal_only_when_interruptible() {
    let mut waiter = ReadinessWaiter::new();
    waiter.begin(100, true);
    assert_eq!(waiter.on_event(WaitEvent::Interrupted), WaitAction::Return(SelectResult::Signal));
    waiter.begin(100, false);
    assert_eq!(waiter.on_event(WaitEvent::Interrupted), WaitAction::Wait { remaining_ms: 100 });
    waiter.begin(0, false);
    assert_eq!(waiter.on_event(WaitEvent::Interrupted), WaitAction::Return(SelectResult::Timeout));
    assert_eq!(waiter.on_event(WaitEvent::Readable { newest: 5 }), WaitAction::Return(SelectResult::Data));
    assert_eq!(waiter.reported, 5);
}

#[test]
fn select_result_from_raw_codes() {
    assert_eq!(SelectResult::from_raw(RAW_SELECT_DATA), SelectResult::Data);
    assert_eq!(SelectResult::from_raw(RAW_SELECT_SIGNAL), SelectResult::Signal);
    assert_eq!(SelectResult::from_raw(RAW_SELECT_TIMEOUT), SelectResult::Timeout);
}

#[test]
fn native_failure_becomes_exception_and_frees_its_strings() {
    let mut heap = NativeHeap::new();
    assert!(check_status(&mut heap, NativeStatus { exception: RAW_EXCEPTION_NONE, message: None, location: None }).is_ok());

    let message = heap.new_string(b"connection refused".to_vec());
    let location = heap.new_string(vec![b'd', b'b', 0xFF]);
    let ids = [message.id, location.id];
    let err = check_status(
        &mut heap,
        NativeStatus { exception: 3, message: Some(message), location: Some(location) },
    )
    .unwrap_err();
    assert_eq!(err.kind(), ExceptionKind::Native);
    assert_eq!(err.message(), "connection refused");
    assert_eq!(err.location(), "db\u{FFFD}");
    assert_eq!(err.to_string(), "[db\u{FFFD}] connection refused");
    for id in ids {
        assert!(!heap.is_live(id));
    }
}

#[test]
fn exception_parts_and_display_form() {
    let e = Exception::new(ExceptionKind::Invariant, "bad input".to_string(), "here:1".to_string());
    assert_eq!(e.message(), "bad input");
    assert_eq!(e.location(), "here:1");
    assert_eq!(e.kind(), ExceptionKind::Invariant);
    assert_eq!(e.to_string(), "[here:1] bad input");
}

#[test]
fn db_connector_constructors_and_clone() {
    let mut heap = NativeHeap::new();
    let db = DbConnector::new_tcp(&mut heap, 0, "127.0.0.1".to_string(), 6379, 10000, ok_status()).unwrap();
    assert!(matches!(db.connection(), DbConnectionInfo::Tcp { hostname, port: 6379, db_id: 0 } if hostname == "127.0.0.1"));
    let copy = db.clone_timeout(&mut heap, 500, ok_status()).unwrap();
    assert_ne!(copy.handle_id(), db.handle_id());
    assert!(matches!(copy.connection(), DbConnectionInfo::Tcp { port: 6379, .. }));
    let default_copy = db.clone_default(&mut heap, ok_status()).unwrap();
    assert!(heap.is_live(default_copy.handle_id()));

    let keyed = DbConnector::new_keyed(&mut heap, "db".to_string(), true, 0, "ctr".to_string(), "ns\0".to_string(), ok_status());
    assert_eq!(keyed.unwrap_err().kind(), ExceptionKind::Encoding);

    let h = db.handle_id();
    db.close(&mut heap);
    assert!(!heap.is_live(h));
}

#[test]
fn scalar_string_result_is_taken_or_none() {
    let mut heap = NativeHeap::new();
    assert!(swss_common::CxxString::take(&mut heap, None).is_none());
    let s = heap.new_string(b"hello, world!".to_vec());
    let id = s.id;
    let v = swss_common::CxxString::take(&mut heap, Some(s)).unwrap();
    assert_eq!(v.as_bytes(), b"hello, world!");
    assert!(!heap.is_live(id));
}

#[test]
fn producer_encodes_writes_and_deletes() {
    let mut heap = NativeHeap::new();
    let db = DbConnector::new_unix(&mut heap, 0, "/tmp/redis.sock".to_string(), 2000, ok_status()).unwrap();
    let db_handle = db.handle_id();
    let pst = ProducerStateTable::new(&mut heap, db, "table_a", ok_status()).unwrap();

    let fvs = vec![("field".to_string(), CxxString::new(b"value"))];
    let (key, arr, keep) = pst.set("key_a", &fvs).unwrap();
    assert_eq!(key, b"key_a\0".to_vec());
    let read = read_field_value_array(&keep, &arr).unwrap();
    assert_eq!(read, vec![(b"field\0".to_vec(), b"value".to_vec())]);

    assert_eq!(pst.del("key_a").unwrap(), b"key_a\0".to_vec());
    assert_eq!(pst.del("bad\0key").unwrap_err().kind(), ExceptionKind::Encoding);
    assert!(pst.set("k", &vec![("f\0".to_string(), CxxString::new(b"v"))]).is_err());

    pst.close(&mut heap);
    assert!(!heap.is_live(db_handle));
}

#[test]
fn zmq_client_encodes_a_batch() {
    let mut heap = NativeHeap::new();
    let client = ZmqClient::new(&mut heap, "tcp://127.0.0.1:5555", ok_status()).unwrap();
    let records = vec![
        KeyOpFieldValues::set("k1".to_string(), vec![("f".to_string(), CxxString::new(b"v"))]),
        KeyOpFieldValues::del("k2".to_string()),
    ];
    let (db, table, arr, keep) = client.send_msg("APPL_DB", "table_a", &records).unwrap();
    assert_eq!(db, b"APPL_DB\0".to_vec());
    assert_eq!(table, b"table_a\0".to_vec());
    let read = read_key_op_array(&keep, &arr).unwrap();
    assert_eq!(read.len(), 2);
    assert_eq!(read[1].0, b"k2\0".to_vec());
    assert!(read[1].2.is_empty());
    assert!(client.send_msg("APPL\0DB", "t", &records).is_err());

    let db = DbConnector::new_unix(&mut heap, 0, "/tmp/redis.sock".to_string(), 2000, ok_status()).unwrap();
    let producer = ZmqProducerStateTable::new(&mut heap, db, "table_a", client, false, ok_status()).unwrap();
    assert_eq!(producer.del("k").unwrap(), b"k\0".to_vec());
}

#[test]
fn consumer_tables_close_once_with_their_connection() {
    let mut heap = NativeHeap::new();
    let db = DbConnector::new_unix(&mut heap, 0, "/tmp/redis.sock".to_string(), 2000, ok_status()).unwrap();
    let db_handle = db.handle_id();
    let cst = ConsumerStateTable::new(&mut heap, db, "table_a", None, None, ok_status()).unwrap();
    cst.close(&mut heap);
    assert!(!heap.is_live(db_handle));

    let db = DbConnector::new_unix(&mut heap, 0, "/tmp/redis.sock".to_string(), 2000, ok_status()).unwrap();
    let sst = SubscriberStateTable::new(&mut heap, db, "table_a", None, None, ok_status()).unwrap();
    sst.close(&mut heap);
    let db = DbConnector::new_unix(&mut heap, 0, "/tmp/redis.sock".to_string(), 2000, ok_status()).unwrap();
    let t = Table::new(&mut heap, db, "table_a", ok_status()).unwrap();
    t.close(&mut heap);
    for id in 0..6 {
        assert!(!heap.is_live(id));
    }
}

fn ok_status() -> NativeStatus {
    NativeStatus { exception: RAW_EXCEPTION_NONE, message: None, location: None }
}

fn failed_status(heap: &mut NativeHeap, message: &str, location: &str) -> NativeStatus {
    let message: NativeString = heap.new_string(message.as_bytes().to_vec());
    let location = heap.new_string(location.as_bytes().to_vec());
    NativeStatus { exception: 1, message: Some(message), location: Some(location) }
}

#[test]
fn expected_exceptions() {
    let mut heap = NativeHeap::new();
    let status = failed_status(&mut heap, "Unable to connect to redis: Connection refused", "dbconnector.cpp:57");
    DbConnector::new_tcp(&mut heap, 0, "127.0.0.1".to_string(), 1, 10000, status).unwrap_err();
}

#[test]
fn failed_native_open_becomes_the_error_and_leaves_nothing_allocated() {
    let mut heap = NativeHeap::new();
    let status = failed_status(&mut heap, "Connection refused", "here");
    let err = DbConnector::new_tcp(&mut heap, 0, "127.0.0.1".to_string(), 1, 10000, status).unwrap_err();
    assert_eq!(err.kind(), ExceptionKind::Native);
    assert_eq!(err.to_string(), "[here] Connection refused");
    for id in 0..3 {
        assert!(!heap.is_live(id));
    }

    let status = failed_status(&mut heap, "refused", "there");
    let err = DbConnector::new_unix(&mut heap, 0, "/tmp/redis.sock".to_string(), 0, status).unwrap_err();
    assert_eq!(err.kind(), ExceptionKind::Native);

    let status = failed_status(&mut heap, "refused", "there");
    let err = DbConnector::new_unix(&mut heap, 0, "bad\0path".to_string(), 0, status).unwrap_err();
    assert_eq!(err.kind(), ExceptionKind::Encoding);
    assert_eq!(err.message(), "String contains null byte at position 3");
    for id in 0..7 {
        assert!(!heap.is_live(id));
    }

    let db = DbConnector::new_named(&mut heap, "APPL_DB".to_string(), false, 0, ok_status()).unwrap();
    let mut server = ZmqServer::new(&mut heap, "ipc:///tmp/zmq", ok_status()).unwrap();
    let status = failed_status(&mut heap, "refused", "there");
    let r = ZmqConsumerStateTable::new(&mut heap, db, "t", &mut server, None, None, status);
    assert!(r.is_err());
    assert_eq!(server.guard_count(), 0);
}

#[test]
fn clone_failure_is_reported() {
    let mut heap = NativeHeap::new();
    let db = DbConnector::new_unix(&mut heap, 0, "/tmp/redis.sock".to_string(), 0, ok_status()).unwrap();
    let status = failed_status(&mut heap, "timeout", "clone");
    let err = db.clone_timeout(&mut heap, 10, status).unwrap_err();
    assert_eq!(err.message(), "timeout");
}
