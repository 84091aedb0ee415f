use crate::cxxstring::CxxString;
use crate::keepalive::{
    c_bytes, encoded_field_values, encoded_record, field_values_encode_error, has_nul, record_encode_error,
};
use crate::marshal::{
    cstring_error_fn, field_value_array_error, field_value_array_map, field_value_error, field_value_error_fn,
    field_value_map, first_error, key_op_array_error, key_op_array_records, key_op_error, key_op_error_fn,
    key_op_record, key_op_records, string_array_error, string_array_texts,
};
use crate::native::{
    NativeFieldValue, NativeFieldValueArray, NativeKeyOpFieldValues, NativeKeyOpFieldValuesArray,
    NativeStringArray,
};
use crate::record::{pairs_map, KeyOpFieldValues, KeyOpFieldValuesView, KeyOperation};
use vstd::prelude::*;
use vstd::utf8::*;

verus! {

broadcast use vstd::utf8::encode_utf8_decode_utf8, vstd::utf8::encode_utf8_valid_utf8;

/// Whether native field → value entries are the native side's copy of
/// encoded pairs: each field without its terminator, each value as it is.
pub open spec fn field_values_copied(items: Seq<NativeFieldValue>, enc: Seq<(Seq<u8>, Seq<u8>)>) -> bool {
    &&& items.len() == enc.len()
    &&& forall|i: int|
        0 <= i < items.len() ==> (#[trigger] items[i]).field.bytes@ == enc[i].0.drop_last() && (
        items[i].value matches Some(v) && v.bytes@ == enc[i].1)
}

/// Whether a native key / operation / field-values entry is the native
/// side's copy of an encoded record.
pub open spec fn record_copied(e: NativeKeyOpFieldValues, enc: (Seq<u8>, u32, Seq<(Seq<u8>, Seq<u8>)>)) -> bool {
    &&& e.key.bytes@ == enc.0.drop_last()
    &&& e.operation == enc.1
    &&& e.field_values.block matches Some(b) && field_values_copied(b.items@, enc.2)
}

proof fn lemma_c_bytes_drop_last(s: Seq<char>)
    ensures
        c_bytes(s).drop_last() == encode_utf8(s),
{
    assert(c_bytes(s).drop_last() =~= encode_utf8(s));
}

proof fn lemma_field_values_round_trip(items: Seq<NativeFieldValue>, pairs: Seq<(String, CxxString)>)
    requires
        field_values_copied(items, encoded_field_values(pairs)),
    ensures
        first_error(items, field_value_error_fn()) is None,
        field_value_map(items) == pairs_map(pairs),
    decreases items.len(),
{
    if items.len() > 0 {
        let n = items.len() - 1;
        let enc = encoded_field_values(pairs);
        assert(encoded_field_values(pairs.drop_last()) =~= enc.drop_last());
        assert(field_values_copied(items.drop_last(), enc.drop_last())) by {
            assert forall|i: int| 0 <= i < items.drop_last().len() implies #[trigger] items.drop_last()[i]
                == items[i] by {}
        }
        lemma_field_values_round_trip(items.drop_last(), pairs.drop_last());
        lemma_c_bytes_drop_last(pairs[n].0@);
        assert(items[n].field.bytes@ == encode_utf8(pairs[n].0@));
        assert(field_value_error(items.last()) is None);
    }
}

/// Decoding the native copy of an encoded record gives back the record: the
/// same key, the same operation and the same fields.
pub proof fn lemma_record_round_trip(r: KeyOpFieldValues, e: NativeKeyOpFieldValues)
    requires
        record_encode_error(r) is None,
        record_copied(e, encoded_record(r)),
    ensures
        key_op_error(e) is None,
        key_op_record(e) == r@,
{
    lemma_c_bytes_drop_last(r.key@);
    let b = e.field_values.block->0;
    lemma_field_values_round_trip(b.items@, r.field_values.entries_spec());
    assert(r.field_values@ == pairs_map(r.field_values.entries_spec())) by {
        r.field_values.lemma_view_is_pairs_map();
    }
    assert(KeyOperation::spec_from_raw(r.operation.spec_as_raw()) == Some(r.operation));
}

/// Decoding the native copy of a batch of encoded records gives back the
/// batch, record by record, in order, and no error.
pub proof fn lemma_records_round_trip(rs: Seq<KeyOpFieldValues>, a: NativeKeyOpFieldValuesArray)
    requires
        forall|i: int| 0 <= i < rs.len() ==> record_encode_error(#[trigger] rs[i]) is None,
        a.block matches Some(b) && b.items@.len() == rs.len() && forall|i: int|
            0 <= i < rs.len() ==> record_copied(#[trigger] b.items@[i], encoded_record(rs[i])),
    ensures
        key_op_array_error(a) is None,
        key_op_array_records(a) == rs.map_values(|r: KeyOpFieldValues| r@),
{
    lemma_records_round_trip_items(rs, a.block->0.items@);
}

proof fn lemma_records_round_trip_items(rs: Seq<KeyOpFieldValues>, items: Seq<NativeKeyOpFieldValues>)
    requires
        forall|i: int| 0 <= i < rs.len() ==> record_encode_error(#[trigger] rs[i]) is None,
        items.len() == rs.len(),
        forall|i: int| 0 <= i < rs.len() ==> record_copied(#[trigger] items[i], encoded_record(rs[i])),
    ensures
        first_error(items, key_op_error_fn()) is None,
        key_op_records(items) == rs.map_values(|r: KeyOpFieldValues| r@),
    decreases items.len(),
{
    if items.len() > 0 {
        let n = items.len() - 1;
        assert forall|i: int| 0 <= i < rs.drop_last().len() implies record_encode_error(
            #[trigger] rs.drop_last()[i],
        ) is None by {
            assert(rs.drop_last()[i] == rs[i]);
        }
        assert forall|i: int| 0 <= i < rs.drop_last().len() implies record_copied(
            #[trigger] items.drop_last()[i],
            encoded_record(rs.drop_last()[i]),
        ) by {
            assert(rs.drop_last()[i] == rs[i]);
            assert(items.drop_last()[i] == items[i]);
        }
        lemma_records_round_trip_items(rs.drop_last(), items.drop_last());
        lemma_record_round_trip(rs[n], items[n]);
        assert(rs.map_values(|r: KeyOpFieldValues| r@) =~= rs.drop_last().map_values(|r: KeyOpFieldValues| r@).push(
            rs[n]@,
        ));
    }
}

/// A null or empty native array of any of the three kinds decodes to an
/// empty host collection, with no error.
pub proof fn lemma_empty_arrays_decode_to_nothing(
    fv: NativeFieldValueArray,
    kfv: NativeKeyOpFieldValuesArray,
    strings: NativeStringArray,
)
    requires
        fv.block matches Some(b) ==> b.items@.len() == 0,
        kfv.block matches Some(b) ==> b.items@.len() == 0,
        strings.block matches Some(b) ==> b.items@.len() == 0,
    ensures
        field_value_array_error(fv) is None,
        field_value_array_map(fv) == Map::<Seq<char>, Seq<u8>>::empty(),
        key_op_array_error(kfv) is None,
        key_op_array_records(kfv) == Seq::<KeyOpFieldValuesView>::empty(),
        string_array_error(strings) is None,
        string_array_texts(strings) == Seq::<Seq<char>>::empty(),
{
}

} // verus!
