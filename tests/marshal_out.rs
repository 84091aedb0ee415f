use swss_common::{
    cstr, make_field_value_array, make_key_op_field_values_array, native_len, read_field_value_array,
    read_key_op_array, take_key_op_field_values_array, CxxString, ExceptionKind, KeepAlive, KeptBuffer,
    KeyOpFieldValues, KeyOperation, NativeFieldValue, NativeFieldValueArray, NativeHeap, NativeKeyOpFieldValues,
    NativeKeyOpFieldValuesArray, NATIVE_LEN_MAX,
};

fn pairs(n: usize) -> Vec<(String, CxxString)> {
    (0..n).map(|i| (format!("field{i}"), CxxString::new(format!("value-{i}").as_bytes()))).collect()
}

#[test]
fn keep_alive_holds_a_thousand_buffers_through_the_native_read() {
    let fvs = pairs(1000);
    let (arr, keep) = make_field_value_array(&fvs).unwrap();
    drop(fvs);
    assert_eq!(arr.len, 1000);
    // two buffers per pair, and the tuple block
    assert_eq!(keep.len(), 2001);

    let read = read_field_value_array(&keep, &arr).unwrap();

    assert_eq!(read.len(), 1000);
    for (i, (field, value)) in read.iter().enumerate() {
        let mut expected_field = format!("field{i}").into_bytes();
        expected_field.push(0);
        assert_eq!(field, &expected_field);
        assert_eq!(value, format!("value-{i}").as_bytes());
    }
}

#[test]
fn field_name_with_nul_is_an_encoding_error() {
    let mut fvs = pairs(3);
    fvs.push(("bad\0field".to_string(), CxxString::new(b"v")));
    let err = make_field_value_array(&fvs).unwrap_err();
    assert_eq!(err.kind(), ExceptionKind::Encoding);
    assert_eq!(err.message(), "String contains null byte at position 3");
}

#[test]
fn cstr_appends_terminator_and_rejects_nul() {
    assert_eq!(cstr("abc").unwrap(), b"abc\0".to_vec());
    assert_eq!(cstr("").unwrap(), b"\0".to_vec());
    let err = cstr("a\0b").unwrap_err();
    assert_eq!(err.kind(), ExceptionKind::Encoding);
    assert_eq!(err.to_string(), "[cstr] String contains null byte at position 1");
    assert_eq!(cstr("abcdefghijkl\0").unwrap_err().message(), "String contains null byte at position 12");
}

#[test]
fn native_len_capacity_boundary() {
    assert_eq!(native_len(0).unwrap(), 0);
    assert_eq!(native_len(NATIVE_LEN_MAX as usize).unwrap(), NATIVE_LEN_MAX);
    let err = native_len(NATIVE_LEN_MAX as usize + 1).unwrap_err();
    assert_eq!(err.kind(), ExceptionKind::Capacity);
    assert_eq!(err.message(), "array length exceeds maximum for target type");
}

#[test]
fn reader_rejects_a_dangling_descriptor() {
    let fvs = pairs(2);
    let (mut arr, keep) = make_field_value_array(&fvs).unwrap();
    arr.data = 0;
    assert!(read_field_value_array(&keep, &arr).is_none());
    let empty = KeepAlive::new();
    assert!(read_field_value_array(&empty, &arr).is_none());
}

#[test]
fn keep_alive_slots_hold_what_was_kept() {
    let mut keep = KeepAlive::new();
    let a = keep.keep(KeptBuffer::CString(b"x\0".to_vec()));
    let b = keep.keep(KeptBuffer::Value(CxxString::new(b"y")));
    assert_eq!((a, b), (0, 1));
    assert!(matches!(keep.get(0), Some(KeptBuffer::CString(v)) if v == b"x\0"));
    assert!(matches!(keep.get(1), Some(KeptBuffer::Value(c)) if c.as_bytes() == b"y"));
    assert!(keep.get(2).is_none());
}

#[test]
fn write_record_without_fields_is_an_invariant_violation() {
    let records = vec![
        KeyOpFieldValues::set("a".to_string(), pairs(1)),
        KeyOpFieldValues::set("b".to_string(), Vec::new()),
        KeyOpFieldValues::set("c\0".to_string(), pairs(1)),
    ];
    let err = make_key_op_field_values_array(&records).unwrap_err();
    assert_eq!(err.kind(), ExceptionKind::Invariant);
}

#[test]
fn first_failing_record_decides_the_error() {
    let records = vec![
        KeyOpFieldValues::set("a".to_string(), pairs(1)),
        KeyOpFieldValues::del("b\0".to_string()),
        KeyOpFieldValues::set("c".to_string(), Vec::new()),
    ];
    let err = make_key_op_field_values_array(&records).unwrap_err();
    assert_eq!(err.kind(), ExceptionKind::Encoding);
}

/// What the native side does with an outbound batch: it copies what it read
/// into arrays of its own, which a consumer later takes.
fn native_copy(heap: &mut NativeHeap, read: Vec<(Vec<u8>, u32, Vec<(Vec<u8>, Vec<u8>)>)>) -> NativeKeyOpFieldValuesArray {
    let mut entries = Vec::new();
    for (mut key, operation, fvs) in read {
        key.pop();
        let mut items = Vec::new();
        for (mut field, value) in fvs {
            field.pop();
            let field = heap.new_cstring(field);
            let value = Some(heap.new_string(value));
            items.push(NativeFieldValue { field, value });
        }
        let key = heap.new_cstring(key);
        let block = heap.new_block(items);
        entries.push(NativeKeyOpFieldValues { key, operation, field_values: NativeFieldValueArray { block: Some(block) } });
    }
    NativeKeyOpFieldValuesArray { block: Some(heap.new_block(entries)) }
}

#[test]
fn records_round_trip_through_the_native_side() {
    let records = vec![
        KeyOpFieldValues::set(
            "key_a".to_string(),
            vec![
                ("field_a".to_string(), CxxString::new(b"value_a")),
                ("field_b".to_string(), CxxString::new(&[0xFF, 0, 7])),
            ],
        ),
        KeyOpFieldValues::del("key_b".to_string()),
        KeyOpFieldValues::set("ключ".to_string(), vec![("поле".to_string(), CxxString::new("значение".as_bytes()))]),
    ];
    let (arr, keep) = make_key_op_field_values_array(&records).unwrap();
    let read = read_key_op_array(&keep, &arr).unwrap();
    drop(keep);

    let mut heap = NativeHeap::new();
    let native = native_copy(&mut heap, read);
    let back = take_key_op_field_values_array(&mut heap, native).unwrap();

    assert_eq!(back, records);
    assert_eq!(back[1].operation, KeyOperation::Del);
    for id in 0..20 {
        assert!(!heap.is_live(id));
    }
}
