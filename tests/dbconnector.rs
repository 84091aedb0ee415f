use swss_common::{
    read_data_result, CxxString, DbConnector, ExceptionKind, NativeFieldValue, NativeFieldValueArray, NativeHeap,
    NativeStatus, SelectResult, RAW_EXCEPTION_NONE, RAW_SELECT_DATA, RAW_SELECT_TIMEOUT,
};

fn done() -> NativeStatus {
    NativeStatus { exception: RAW_EXCEPTION_NONE, message: None, location: None }
}

fn refused(heap: &mut NativeHeap) -> NativeStatus {
    let message = heap.new_string(b"connection lost".to_vec());
    let location = heap.new_string(b"dbconnector".to_vec());
    NativeStatus { exception: 2, message: Some(message), location: Some(location) }
}

fn connector(heap: &mut NativeHeap) -> DbConnector {
    DbConnector::new_unix(heap, 0, "/tmp/redis.sock".to_string(), 10000, done()).unwrap()
}

#[test]
fn flags_and_writes_decode_the_native_replies() {
    let mut heap = NativeHeap::new();
    let db = connector(&mut heap);
    let hello = CxxString::new(b"hello, world!");
    assert!(db.set(&mut heap, "hello", hello.as_cxx_str(), done()).is_ok());
    assert!(db.key_exists(&mut heap, "hello", done(), 1).unwrap());
    assert!(!db.key_exists(&mut heap, "noexist", done(), 0).unwrap());
    assert!(db.del(&mut heap, "hello", done(), 1).unwrap());
    assert!(!db.del(&mut heap, "hello", done(), 0).unwrap());
    assert!(db.hset(&mut heap, "a", "hello", hello.as_cxx_str(), done()).is_ok());
    assert!(db.hexists(&mut heap, "a", "hello", done(), 1).unwrap());
    assert!(db.hdel(&mut heap, "a", "hello", done(), 1).unwrap());
    assert!(db.flush_db(&mut heap, done(), 1).unwrap());

    let err = db.hdel(&mut heap, "a", "he\0llo", done(), 1).unwrap_err();
    assert_eq!(err.message(), "String contains null byte at position 2");
    let status = refused(&mut heap);
    let err = db.set(&mut heap, "k", hello.as_cxx_str(), status).unwrap_err();
    assert_eq!(err.kind(), ExceptionKind::Native);
    assert_eq!(err.to_string(), "[dbconnector] connection lost");
}

#[test]
fn scalar_and_hash_reads_take_what_was_handed_back() {
    let mut heap = NativeHeap::new();
    let db = connector(&mut heap);
    let value = heap.new_string(b"hello, world!".to_vec());
    let id = value.id;
    let got = db.get(&mut heap, "hello", done(), Some(value)).unwrap().unwrap();
    assert_eq!(got.as_bytes(), b"hello, world!");
    assert!(!heap.is_live(id));
    assert!(db.get(&mut heap, "noexist", done(), None).unwrap().is_none());
    assert!(db.hget(&mut heap, "a", "noexist", done(), None).unwrap().is_none());

    let field = heap.new_cstring(b"hello".to_vec());
    let value = Some(heap.new_string(b"world".to_vec()));
    let block = heap.new_block(vec![NativeFieldValue { field, value }]);
    let map = db.hgetall(&mut heap, "a", done(), NativeFieldValueArray { block: Some(block) }).unwrap();
    assert_eq!(map.get("hello").unwrap().as_bytes(), b"world");
    assert!(db.hgetall(&mut heap, "b", done(), NativeFieldValueArray { block: None }).unwrap().is_empty());

    let status = refused(&mut heap);
    assert!(db.hgetall(&mut heap, "a", status, NativeFieldValueArray { block: None }).is_err());
    for id in 1..8 {
        assert!(!heap.is_live(id));
    }
}

#[test]
fn readiness_result_from_the_native_wait() {
    let mut heap = NativeHeap::new();
    assert_eq!(read_data_result(&mut heap, done(), RAW_SELECT_DATA).unwrap(), SelectResult::Data);
    assert_eq!(read_data_result(&mut heap, done(), RAW_SELECT_TIMEOUT).unwrap(), SelectResult::Timeout);
    let status = refused(&mut heap);
    assert_eq!(read_data_result(&mut heap, status, 0).unwrap_err().kind(), ExceptionKind::Native);
}
