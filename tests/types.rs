use swss_common::{
    take_cstr, take_field_value_array, take_key_op_field_values_array, take_string_array, ExceptionKind,
    NativeBlock, NativeCString, NativeFieldValue, NativeFieldValueArray, NativeHeap, NativeKeyOpFieldValues,
    NativeKeyOpFieldValuesArray, NativeStringArray, KeyOperation, RAW_KEY_OPERATION_DEL, RAW_KEY_OPERATION_SET,
};

fn make_c_string(heap: &mut NativeHeap, s: &[u8]) -> NativeCString {
    heap.new_cstring(s.to_vec())
}

#[test]
fn test_take_cstr_valid_utf8() {
    let mut heap = NativeHeap::new();
    let c = make_c_string(&mut heap, "Hello, World!".as_bytes());
    let id = c.id;
    let result = take_cstr(&mut heap, c);

    assert!(result.is_ok());
    assert_eq!(result.unwrap(), "Hello, World!");
    assert!(!heap.is_live(id));
}

#[test]
fn test_take_cstr_invalid_utf8() {
    let mut heap = NativeHeap::new();
    let invalid_bytes: Vec<u8> = vec![0xFF, 0xFE];
    let c = make_c_string(&mut heap, &invalid_bytes);
    let id = c.id;

    let result = take_cstr(&mut heap, c);

    assert!(result.is_err());
    let err = result.unwrap_err();
    assert!(err.to_string().contains("invalid UTF-8"));
    assert_eq!(err.kind(), ExceptionKind::Encoding);
    assert!(!heap.is_live(id));
}

#[test]
fn test_take_string_array_empty() {
    let mut heap = NativeHeap::new();
    let arr = NativeStringArray { block: None };

    let result = take_string_array(&mut heap, arr);

    assert!(result.is_ok());
    assert_eq!(result.unwrap().len(), 0);
}

#[test]
fn test_take_string_array_invalid_utf8() {
    let mut heap = NativeHeap::new();
    let invalid_ptr = make_c_string(&mut heap, &[0xFF, 0xFE]);
    let valid_ptr = make_c_string(&mut heap, "valid string".as_bytes());
    let ids = [invalid_ptr.id, valid_ptr.id];
    let block = heap.new_block(vec![invalid_ptr, valid_ptr]);
    let block_id = block.id;
    let arr = NativeStringArray { block: Some(block) };

    let result = take_string_array(&mut heap, arr);

    assert!(result.is_err());
    let err = result.unwrap_err();
    assert!(err.to_string().contains("invalid UTF-8"));
    for id in ids {
        assert!(!heap.is_live(id));
    }
    assert!(!heap.is_live(block_id));
}

fn fv(heap: &mut NativeHeap, field: &[u8], value: Option<&[u8]>) -> NativeFieldValue {
    let field = heap.new_cstring(field.to_vec());
    let value = value.map(|v| heap.new_string(v.to_vec()));
    NativeFieldValue { field, value }
}

fn live_ids_of_fv_array(arr: &NativeFieldValueArray) -> Vec<usize> {
    let mut ids = Vec::new();
    if let Some(b) = &arr.block {
        for e in &b.items {
            ids.push(e.field.id);
            if let Some(v) = &e.value {
                ids.push(v.id);
            }
        }
        ids.push(b.id);
    }
    ids
}

#[test]
fn take_field_value_array_mixed_entries_reports_first_error_and_frees_all() {
    let mut heap = NativeHeap::new();
    let items = vec![
        fv(&mut heap, b"good", Some(b"1")),
        fv(&mut heap, &[0xC3, 0x28], Some(b"2")),
        fv(&mut heap, b"null_value", None),
        fv(&mut heap, &[0xFF], None),
        fv(&mut heap, b"also_good", Some(b"3")),
    ];
    let block = heap.new_block(items);
    let arr = NativeFieldValueArray { block: Some(block) };
    let ids = live_ids_of_fv_array(&arr);
    assert_eq!(ids.len(), 9);
    for id in &ids {
        assert!(heap.is_live(*id));
    }

    let err = take_field_value_array(&mut heap, arr).unwrap_err();

    assert!(err.message().contains("invalid UTF-8"));
    assert_eq!(err.location(), "take_cstr");
    for id in &ids {
        assert!(!heap.is_live(*id));
    }
}

#[test]
fn take_field_value_array_null_value_first() {
    let mut heap = NativeHeap::new();
    let items = vec![
        fv(&mut heap, b"a", None),
        fv(&mut heap, &[0xFF], Some(b"x")),
    ];
    let block = heap.new_block(items);
    let arr = NativeFieldValueArray { block: Some(block) };
    let ids = live_ids_of_fv_array(&arr);

    let err = take_field_value_array(&mut heap, arr).unwrap_err();

    assert_eq!(err.message(), "CxxString::take returned null");
    for id in &ids {
        assert!(!heap.is_live(*id));
    }
}

#[test]
fn take_field_value_array_well_formed_last_duplicate_wins() {
    let mut heap = NativeHeap::new();
    let items = vec![
        fv(&mut heap, b"f1", Some(b"v1")),
        fv(&mut heap, b"f2", Some(&[0, 1, 2])),
        fv(&mut heap, b"f1", Some(b"v3")),
    ];
    let block = heap.new_block(items);
    let arr = NativeFieldValueArray { block: Some(block) };
    let ids = live_ids_of_fv_array(&arr);

    let map = take_field_value_array(&mut heap, arr).unwrap();

    assert_eq!(map.len(), 2);
    assert_eq!(map.get("f1").unwrap().as_bytes(), b"v3");
    assert_eq!(map.get("f2").unwrap().as_bytes(), &[0, 1, 2]);
    assert!(map.get("f3").is_none());
    for id in &ids {
        assert!(!heap.is_live(*id));
    }
}

#[test]
fn empty_arrays_of_every_kind_decode_to_nothing() {
    let mut heap = NativeHeap::new();
    assert!(take_field_value_array(&mut heap, NativeFieldValueArray { block: None }).unwrap().is_empty());
    assert!(take_key_op_field_values_array(&mut heap, NativeKeyOpFieldValuesArray { block: None }).unwrap().is_empty());
    assert!(take_string_array(&mut heap, NativeStringArray { block: None }).unwrap().is_empty());

    let b1: NativeBlock<NativeFieldValue> = heap.new_block(Vec::new());
    let b2: NativeBlock<NativeKeyOpFieldValues> = heap.new_block(Vec::new());
    let b3: NativeBlock<NativeCString> = heap.new_block(Vec::new());
    let ids = [b1.id, b2.id, b3.id];
    assert!(take_field_value_array(&mut heap, NativeFieldValueArray { block: Some(b1) }).unwrap().is_empty());
    assert!(take_key_op_field_values_array(&mut heap, NativeKeyOpFieldValuesArray { block: Some(b2) })
        .unwrap()
        .is_empty());
    assert!(take_string_array(&mut heap, NativeStringArray { block: Some(b3) }).unwrap().is_empty());
    for id in ids {
        assert!(!heap.is_live(id));
    }
}

#[test]
fn take_key_op_field_values_array_decodes_in_order() {
    let mut heap = NativeHeap::new();
    let key1 = heap.new_cstring(b"key1".to_vec());
    let inner = vec![fv(&mut heap, b"field", Some(b"value"))];
    let inner_block = heap.new_block(inner);
    let key2 = heap.new_cstring(b"key2".to_vec());
    let empty_block: NativeBlock<NativeFieldValue> = heap.new_block(Vec::new());
    let entries = vec![
        NativeKeyOpFieldValues {
            key: key1,
            operation: RAW_KEY_OPERATION_SET,
            field_values: NativeFieldValueArray { block: Some(inner_block) },
        },
        NativeKeyOpFieldValues {
            key: key2,
            operation: RAW_KEY_OPERATION_DEL,
            field_values: NativeFieldValueArray { block: Some(empty_block) },
        },
    ];
    let block = heap.new_block(entries);
    let arr = NativeKeyOpFieldValuesArray { block: Some(block) };

    let records = take_key_op_field_values_array(&mut heap, arr).unwrap();

    assert_eq!(records.len(), 2);
    assert_eq!(records[0].key, "key1");
    assert_eq!(records[0].operation, KeyOperation::Write);
    assert_eq!(records[0].field_values.get("field").unwrap().as_bytes(), b"value");
    assert_eq!(records[1].key, "key2");
    assert_eq!(records[1].operation, KeyOperation::Del);
    assert!(records[1].field_values.is_empty());
    for id in 0..9 {
        assert!(!heap.is_live(id));
    }
}

#[test]
fn take_key_op_field_values_array_bad_key_then_bad_field_reports_key_error() {
    let mut heap = NativeHeap::new();
    let bad_key = heap.new_cstring(vec![0xFF]);
    let inner = vec![fv(&mut heap, b"field", None)];
    let inner_block = heap.new_block(inner);
    let key2 = heap.new_cstring(b"key2".to_vec());
    let inner2 = vec![fv(&mut heap, b"f", None)];
    let inner_block2 = heap.new_block(inner2);
    let entries = vec![
        NativeKeyOpFieldValues {
            key: bad_key,
            operation: RAW_KEY_OPERATION_SET,
            field_values: NativeFieldValueArray { block: Some(inner_block) },
        },
        NativeKeyOpFieldValues {
            key: key2,
            operation: RAW_KEY_OPERATION_SET,
            field_values: NativeFieldValueArray { block: Some(inner_block2) },
        },
    ];
    let block = heap.new_block(entries);
    let arr = NativeKeyOpFieldValuesArray { block: Some(block) };

    let err = take_key_op_field_values_array(&mut heap, arr).unwrap_err();

    assert!(err.message().contains("invalid UTF-8"));
    for id in 0..9 {
        assert!(!heap.is_live(id));
    }
}
