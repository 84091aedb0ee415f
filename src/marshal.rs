use crate::cxxstring::{lossy_utf8, str_from_utf8, string_from_utf8_lossy, CxxString};
use crate::exception::{Exception, ExceptionKind, ExceptionView, Result};
use crate::native::{
    cstring_ids_fn, field_value_array_ids, field_value_ids_fn, ids_of, key_op_array_ids, key_op_ids,
    key_op_ids_fn, lemma_ids_of_prefix, lemma_ids_of_split, lemma_middle_fresh, string_array_ids, without,
    NativeCString, NativeFieldValue, NativeFieldValueArray, NativeHeap, NativeKeyOpFieldValues,
    NativeKeyOpFieldValuesArray, NativeString, NativeStringArray,
};
use crate::record::{FieldValues, KeyOpFieldValues, KeyOpFieldValuesView, KeyOperation};
use vstd::prelude::*;
use vstd::utf8::*;

verus! {

broadcast use vstd::seq_lib::group_seq_properties;

/// The error for a native string that is not valid UTF-8.
pub open spec fn invalid_utf8_error() -> ExceptionView {
    ExceptionView {
        kind: ExceptionKind::Encoding,
        message: "C string being converted to Rust String contains invalid UTF-8"@,
        location: "take_cstr"@,
    }
}

fn invalid_utf8_exception() -> (r: Exception)
    ensures
        r@ == invalid_utf8_error(),
{
    Exception::new(
        ExceptionKind::Encoding,
        "C string being converted to Rust String contains invalid UTF-8".to_owned(),
        "take_cstr".to_owned(),
    )
}

/// The error for a field → value entry whose value pointer is null.
pub open spec fn null_value_error() -> ExceptionView {
    ExceptionView {
        kind: ExceptionKind::Encoding,
        message: "CxxString::take returned null"@,
        location: "take_field_value_array"@,
    }
}

fn null_value_exception() -> (r: Exception)
    ensures
        r@ == null_value_error(),
{
    Exception::new(
        ExceptionKind::Encoding,
        "CxxString::take returned null".to_owned(),
        "take_field_value_array".to_owned(),
    )
}

/// The view of an optional exception.
pub open spec fn error_view(e: Option<Exception>) -> Option<ExceptionView> {
    match e {
        Some(x) => Some(x@),
        None => None,
    }
}

/// The first error of a sequence of entries, each judged by `err`.
pub open spec fn first_error<T>(s: Seq<T>, err: spec_fn(T) -> Option<ExceptionView>) -> Option<ExceptionView>
    decreases s.len(),
{
    if s.len() == 0 {
        None
    } else {
        match first_error(s.drop_last(), err) {
            Some(e) => Some(e),
            None => err(s.last()),
        }
    }
}

/// The error that taking a native C string gives, if any.
pub open spec fn cstring_error(c: NativeCString) -> Option<ExceptionView> {
    if valid_utf8(c.bytes@) {
        None
    } else {
        Some(invalid_utf8_error())
    }
}

/// [`cstring_error`] as a function value.
pub open spec fn cstring_error_fn() -> spec_fn(NativeCString) -> Option<ExceptionView> {
    |c: NativeCString| cstring_error(c)
}

/// The error that a field → value entry gives, if any: its field name first,
/// then its value.
pub open spec fn field_value_error(e: NativeFieldValue) -> Option<ExceptionView> {
    if !valid_utf8(e.field.bytes@) {
        Some(invalid_utf8_error())
    } else if e.value is None {
        Some(null_value_error())
    } else {
        None
    }
}

/// [`field_value_error`] as a function value.
pub open spec fn field_value_error_fn() -> spec_fn(NativeFieldValue) -> Option<ExceptionView> {
    |e: NativeFieldValue| field_value_error(e)
}

/// The map that the well-formed entries build, in order: a later entry
/// replaces an earlier one with the same field.
pub open spec fn field_value_map(s: Seq<NativeFieldValue>) -> Map<Seq<char>, Seq<u8>>
    decreases s.len(),
{
    if s.len() == 0 {
        Map::empty()
    } else {
        let e = s.last();
        if field_value_error(e) is None {
            field_value_map(s.drop_last()).insert(decode_utf8(e.field.bytes@), e.value->0.bytes@)
        } else {
            field_value_map(s.drop_last())
        }
    }
}

/// The first error of a native field → value array, if any.
pub open spec fn field_value_array_error(a: NativeFieldValueArray) -> Option<ExceptionView> {
    match a.block {
        Some(b) => first_error(b.items@, field_value_error_fn()),
        None => None,
    }
}

/// The map that a native field → value array holds.
pub open spec fn field_value_array_map(a: NativeFieldValueArray) -> Map<Seq<char>, Seq<u8>> {
    match a.block {
        Some(b) => field_value_map(b.items@),
        None => Map::empty(),
    }
}

/// The error that a key / operation / field-values entry gives, if any: its
/// key first, then its nested array.
pub open spec fn key_op_error(e: NativeKeyOpFieldValues) -> Option<ExceptionView> {
    if !valid_utf8(e.key.bytes@) {
        Some(invalid_utf8_error())
    } else {
        field_value_array_error(e.field_values)
    }
}

/// [`key_op_error`] as a function value.
pub open spec fn key_op_error_fn() -> spec_fn(NativeKeyOpFieldValues) -> Option<ExceptionView> {
    |e: NativeKeyOpFieldValues| key_op_error(e)
}

/// The record that a well-formed key / operation / field-values entry holds.
pub open spec fn key_op_record(e: NativeKeyOpFieldValues) -> KeyOpFieldValuesView {
    KeyOpFieldValuesView {
        key: decode_utf8(e.key.bytes@),
        operation: KeyOperation::spec_from_raw(e.operation)->0,
        field_values: field_value_array_map(e.field_values),
    }
}

/// The records of the well-formed entries, in order.
pub open spec fn key_op_records(s: Seq<NativeKeyOpFieldValues>) -> Seq<KeyOpFieldValuesView>
    decreases s.len(),
{
    if s.len() == 0 {
        Seq::empty()
    } else if key_op_error(s.last()) is None {
        key_op_records(s.drop_last()).push(key_op_record(s.last()))
    } else {
        key_op_records(s.drop_last())
    }
}

/// Whether every entry carries a known operation code.
pub open spec fn key_op_codes_known(a: NativeKeyOpFieldValuesArray) -> bool {
    a.block matches Some(b) ==> forall|i: int|
        0 <= i < b.items@.len() ==> (KeyOperation::spec_from_raw(#[trigger] b.items@[i].operation) is Some)
}

/// The first error of a native key / operation / field-values array, if any.
pub open spec fn key_op_array_error(a: NativeKeyOpFieldValuesArray) -> Option<ExceptionView> {
    match a.block {
        Some(b) => first_error(b.items@, key_op_error_fn()),
        None => None,
    }
}

/// The records that a native key / operation / field-values array holds.
pub open spec fn key_op_array_records(a: NativeKeyOpFieldValuesArray) -> Seq<KeyOpFieldValuesView> {
    match a.block {
        Some(b) => key_op_records(b.items@),
        None => Seq::empty(),
    }
}

/// The texts of the valid strings, in order.
pub open spec fn string_texts(s: Seq<NativeCString>) -> Seq<Seq<char>>
    decreases s.len(),
{
    if s.len() == 0 {
        Seq::empty()
    } else if valid_utf8(s.last().bytes@) {
        string_texts(s.drop_last()).push(decode_utf8(s.last().bytes@))
    } else {
        string_texts(s.drop_last())
    }
}

/// The first error of a native string array, if any.
pub open spec fn string_array_error(a: NativeStringArray) -> Option<ExceptionView> {
    match a.block {
        Some(b) => first_error(b.items@, cstring_error_fn()),
        None => None,
    }
}

/// The texts that a native string array holds.
pub open spec fn string_array_texts(a: NativeStringArray) -> Seq<Seq<char>> {
    match a.block {
        Some(b) => string_texts(b.items@),
        None => Seq::empty(),
    }
}

/// Releases `c` and decodes its bytes.
fn take_cstr_ref(heap: &mut NativeHeap, c: &NativeCString) -> (r: Result<String>)
    requires
        old(heap).live_ids().contains(c.id),
    ensures
        final(heap).live_ids() == old(heap).live_ids().remove(c.id),
        r is Ok <==> valid_utf8(c.bytes@),
        r matches Ok(s) ==> s@ == decode_utf8(c.bytes@),
        r matches Err(e) ==> e@ == invalid_utf8_error(),
{
    let decoded = match str_from_utf8(c.bytes.as_slice()) {
        Ok(s) => Ok(s.to_owned()),
        Err(_) => Err(invalid_utf8_exception()),
    };
    heap.release(c.id);
    decoded
}

/// Takes a natively allocated C string and turns it into a host string. The
/// native string is released whether or not its bytes are valid UTF-8.
pub fn take_cstr(heap: &mut NativeHeap, c: NativeCString) -> (r: Result<String>)
    requires
        old(heap).live_ids().contains(c.id),
    ensures
        final(heap).live_ids() == old(heap).live_ids().remove(c.id),
        r is Ok <==> valid_utf8(c.bytes@),
        r matches Ok(s) ==> s@ == decode_utf8(c.bytes@),
        r matches Err(e) ==> e@ == invalid_utf8_error(),
{
    take_cstr_ref(heap, &c)
}

/// Releases `s` and hands its bytes to a host string.
fn take_string_ref(heap: &mut NativeHeap, s: &NativeString) -> (r: CxxString)
    requires
        old(heap).live_ids().contains(s.id),
    ensures
        final(heap).live_ids() == old(heap).live_ids().remove(s.id),
        r@ == s.bytes@,
{
    let r = CxxString::new(s.bytes.as_slice());
    heap.release(s.id);
    r
}

/// The first error among `i + 1` entries, from the first error among `i`.
pub proof fn lemma_first_error_prefix<T>(s: Seq<T>, err: spec_fn(T) -> Option<ExceptionView>, i: int)
    requires
        0 <= i < s.len(),
    ensures
        first_error(s.subrange(0, i + 1), err) == (match first_error(s.subrange(0, i), err) {
            Some(e) => Some(e),
            None => err(s[i]),
        }),
{
    assert(s.subrange(0, i + 1).drop_last() =~= s.subrange(0, i));
}

/// Entries none of which has an error have no first error.
pub proof fn lemma_first_error_none<T>(s: Seq<T>, err: spec_fn(T) -> Option<ExceptionView>)
    requires
        forall|i: int| 0 <= i < s.len() ==> (err(#[trigger] s[i]) is None),
    ensures
        first_error(s, err) is None,
    decreases s.len(),
{
    if s.len() > 0 {
        assert forall|i: int| 0 <= i < s.drop_last().len() implies (err(#[trigger] s.drop_last()[i]) is None) by {
            assert(s.drop_last()[i] == s[i]);
        }
        lemma_first_error_none(s.drop_last(), err);
    }
}

/// Once some prefix of `s` has an error, that error is the first of `s`.
pub proof fn lemma_first_error_extends<T>(s: Seq<T>, err: spec_fn(T) -> Option<ExceptionView>, k: int)
    requires
        0 <= k <= s.len(),
        first_error(s.subrange(0, k), err) is Some,
    ensures
        first_error(s, err) == first_error(s.subrange(0, k), err),
    decreases s.len() - k,
{
    if k == s.len() {
        assert(s.subrange(0, k) =~= s);
    } else {
        let p = s.drop_last();
        assert(p.subrange(0, k) =~= s.subrange(0, k));
        lemma_first_error_extends(p, err, k);
    }
}

/// Takes the entries of a field → value array, visiting every entry.
fn take_field_value_items(heap: &mut NativeHeap, items: &Vec<NativeFieldValue>) -> (r: (
    FieldValues,
    Option<Exception>,
))
    requires
        old(heap).owns_all(ids_of(items@, field_value_ids_fn())),
    ensures
        final(heap).live_ids() == without(old(heap).live_ids(), ids_of(items@, field_value_ids_fn())),
        r.0@ == field_value_map(items@),
        error_view(r.1) == first_error(items@, field_value_error_fn()),
{
    let ghost live0 = heap.live_ids();
    let ghost f = field_value_ids_fn();
    let mut out = FieldValues::new();
    let mut err: Option<Exception> = None;
    let mut i: usize = 0;
    assert(items@.subrange(0, 0) =~= Seq::<NativeFieldValue>::empty());
    assert(heap.live_ids() =~= without(live0, ids_of(items@.subrange(0, 0), f)));
    while i < items.len()
        invariant
            i <= items@.len(),
            f == field_value_ids_fn(),
            ids_of(items@, f).no_duplicates(),
            forall|k: int| 0 <= k < ids_of(items@, f).len() ==> live0.contains(#[trigger] ids_of(items@, f)[k]),
            heap.live_ids() == without(live0, ids_of(items@.subrange(0, i as int), f)),
            out@ == field_value_map(items@.subrange(0, i as int)),
            error_view(err) == first_error(items@.subrange(0, i as int), field_value_error_fn()),
        decreases items@.len() - i,
    {
        let ghost pre = ids_of(items@.subrange(0, i as int), f);
        let ghost mid = f(items@[i as int]);
        proof {
            lemma_ids_of_split(items@, f, i as int);
            lemma_middle_fresh(
                pre,
                mid,
                ids_of(items@.subrange(i + 1, items@.len() as int), f),
                live0,
            );
            lemma_ids_of_prefix(items@, f, i as int);
            lemma_first_error_prefix(items@, field_value_error_fn(), i as int);
            assert(items@.subrange(0, i + 1).drop_last() =~= items@.subrange(0, i as int));
            assert(mid[0] == items@[i as int].field.id);
        }
        let e = &items[i];
        match take_cstr_ref(heap, &e.field) {
            Ok(field) => {
                match &e.value {
                    Some(v) => {
                        proof {
                            assert(mid[1] == v.id);
                        }
                        let value = take_string_ref(heap, v);
                        out.insert(field, value);
                    },
                    None => {
                        if err.is_none() {
                            err = Some(null_value_exception());
                        }
                    },
                }
            },
            Err(x) => {
                if err.is_none() {
                    err = Some(x);
                }
                match &e.value {
                    Some(v) => {
                        proof {
                            assert(mid[1] == v.id);
                        }
                        let _ = take_string_ref(heap, v);
                    },
                    None => {},
                }
            },
        }
        proof {
            assert(heap.live_ids() =~= without(live0, pre + mid));
        }
        i = i + 1;
    }
    assert(items@.subrange(0, items@.len() as int) =~= items@);
    (out, err)
}

/// Takes a native field → value array given by reference.
fn take_field_value_array_ref(heap: &mut NativeHeap, arr: &NativeFieldValueArray) -> (r: Result<
    FieldValues,
>)
    requires
        old(heap).owns_all(field_value_array_ids(*arr)),
    ensures
        final(heap).live_ids() == without(old(heap).live_ids(), field_value_array_ids(*arr)),
        r is Ok <==> field_value_array_error(*arr) is None,
        r matches Ok(m) ==> m@ == field_value_array_map(*arr),
        r matches Err(e) ==> Some(e@) == field_value_array_error(*arr),
{
    match &arr.block {
        None => {
            assert(old(heap).live_ids() =~= without(old(heap).live_ids(), Seq::empty()));
            Ok(FieldValues::new())
        },
        Some(b) => {
            let ghost live0 = heap.live_ids();
            let ghost items_ids = ids_of(b.items@, field_value_ids_fn());
            proof {
                lemma_middle_fresh(Seq::empty(), items_ids, seq![b.id], live0);
                assert(Seq::<usize>::empty() + items_ids + seq![b.id] =~= items_ids + seq![b.id]);
                lemma_middle_fresh(items_ids, seq![b.id], Seq::empty(), live0);
                assert(items_ids + seq![b.id] + Seq::<usize>::empty() =~= items_ids + seq![b.id]);
                assert(seq![b.id][0] == b.id);
                assert(live0.contains(b.id) && !items_ids.contains(b.id));
            }
            let (out, err) = take_field_value_items(heap, &b.items);
            heap.release(b.id);
            proof {
                assert(heap.live_ids() =~= without(live0, items_ids + seq![b.id]));
            }
            match err {
                Some(e) => Err(e),
                None => Ok(out),
            }
        },
    }
}

/// Takes ownership of a native field → value array and turns it into a host
/// map.
///
/// Every entry is visited, whatever fails: each field name and each value is
/// released exactly once, and the array block too. On failure the first error
/// met is returned; a null or empty array gives an empty map.
pub fn take_field_value_array(heap: &mut NativeHeap, arr: NativeFieldValueArray) -> (r: Result<
    FieldValues,
>)
    requires
        old(heap).owns_all(field_value_array_ids(arr)),
    ensures
        final(heap).live_ids() == without(old(heap).live_ids(), field_value_array_ids(arr)),
        r is Ok <==> field_value_array_error(arr) is None,
        r matches Ok(m) ==> m@ == field_value_array_map(arr),
        r matches Err(e) ==> Some(e@) == field_value_array_error(arr),
{
    take_field_value_array_ref(heap, &arr)
}

/// Takes the entries of a key / operation / field-values array, visiting
/// every entry.
fn take_key_op_items(heap: &mut NativeHeap, items: &Vec<NativeKeyOpFieldValues>) -> (r: (
    Vec<KeyOpFieldValues>,
    Option<Exception>,
))
    requires
        old(heap).owns_all(ids_of(items@, key_op_ids_fn())),
        forall|i: int|
            0 <= i < items@.len() ==> (KeyOperation::spec_from_raw(#[trigger] items@[i].operation) is Some),
    ensures
        final(heap).live_ids() == without(old(heap).live_ids(), ids_of(items@, key_op_ids_fn())),
        r.0@.map_values(|k: KeyOpFieldValues| k@) == key_op_records(items@),
        error_view(r.1) == first_error(items@, key_op_error_fn()),
{
    let ghost live0 = heap.live_ids();
    let ghost f = key_op_ids_fn();
    let mut out: Vec<KeyOpFieldValues> = Vec::new();
    let mut err: Option<Exception> = None;
    let mut i: usize = 0;
    assert(items@.subrange(0, 0) =~= Seq::<NativeKeyOpFieldValues>::empty());
    assert(heap.live_ids() =~= without(live0, ids_of(items@.subrange(0, 0), f)));
    assert(out@.map_values(|k: KeyOpFieldValues| k@) =~= Seq::<KeyOpFieldValuesView>::empty());
    while i < items.len()
        invariant
            i <= items@.len(),
            f == key_op_ids_fn(),
            ids_of(items@, f).no_duplicates(),
            forall|k: int| 0 <= k < ids_of(items@, f).len() ==> live0.contains(#[trigger] ids_of(items@, f)[k]),
            forall|j: int|
                0 <= j < items@.len() ==> (KeyOperation::spec_from_raw(#[trigger] items@[j].operation) is Some),
            heap.live_ids() == without(live0, ids_of(items@.subrange(0, i as int), f)),
            out@.map_values(|k: KeyOpFieldValues| k@) == key_op_records(items@.subrange(0, i as int)),
            error_view(err) == first_error(items@.subrange(0, i as int), key_op_error_fn()),
        decreases items@.len() - i,
    {
        let ghost pre = ids_of(items@.subrange(0, i as int), f);
        let ghost mid = f(items@[i as int]);
        let ghost nested = field_value_array_ids(items@[i as int].field_values);
        proof {
            lemma_ids_of_split(items@, f, i as int);
            lemma_middle_fresh(
                pre,
                mid,
                ids_of(items@.subrange(i + 1, items@.len() as int), f),
                live0,
            );
            lemma_ids_of_prefix(items@, f, i as int);
            lemma_first_error_prefix(items@, key_op_error_fn(), i as int);
            assert(items@.subrange(0, i + 1).drop_last() =~= items@.subrange(0, i as int));
            assert(mid[0] == items@[i as int].key.id);
            assert(mid.subrange(1, mid.len() as int) =~= nested);
            assert forall|k: int| 0 <= k < nested.len() implies mid[k + 1] == #[trigger] nested[k] by {}
        }
        let e = &items[i];
        let key = take_cstr_ref(heap, &e.key);
        let operation = KeyOperation::from_raw(e.operation);
        let field_values = take_field_value_array_ref(heap, &e.field_values);
        proof {
            assert(heap.live_ids() =~= without(live0, pre + mid));
        }
        let ghost out_before = out@;
        match (key, field_values) {
            (Ok(key), Ok(field_values)) => {
                out.push(KeyOpFieldValues { key, operation, field_values });
                proof {
                    assert(out@.map_values(|k: KeyOpFieldValues| k@) =~= out_before.map_values(
                        |k: KeyOpFieldValues| k@,
                    ).push(key_op_record(items@[i as int])));
                }
            },
            (key_res, field_values_res) => {
                if err.is_none() {
                    match key_res {
                        Err(x) => {
                            err = Some(x);
                        },
                        Ok(_) => {
                            match field_values_res {
                                Err(x) => {
                                    err = Some(x);
                                },
                                Ok(_) => {},
                            }
                        },
                    }
                }
            },
        }
        i = i + 1;
    }
    assert(items@.subrange(0, items@.len() as int) =~= items@);
    (out, err)
}

/// Takes ownership of a native key / operation / field-values array and
/// turns it into host records, in order.
///
/// Every entry is visited, whatever fails, so that every key, every nested
/// array and the array block are released exactly once. On failure the first
/// error met is returned; a null or empty array gives no records.
pub fn take_key_op_field_values_array(heap: &mut NativeHeap, kfvs: NativeKeyOpFieldValuesArray) -> (r:
    Result<Vec<KeyOpFieldValues>>)
    requires
        old(heap).owns_all(key_op_array_ids(kfvs)),
        key_op_codes_known(kfvs),
    ensures
        final(heap).live_ids() == without(old(heap).live_ids(), key_op_array_ids(kfvs)),
        r is Ok <==> key_op_array_error(kfvs) is None,
        r matches Ok(v) ==> v@.map_values(|k: KeyOpFieldValues| k@) == key_op_array_records(kfvs),
        r matches Err(e) ==> Some(e@) == key_op_array_error(kfvs),
{
    match kfvs.block {
        None => {
            assert(old(heap).live_ids() =~= without(old(heap).live_ids(), Seq::empty()));
            let out: Vec<KeyOpFieldValues> = Vec::new();
            assert(out@.map_values(|k: KeyOpFieldValues| k@) =~= Seq::<KeyOpFieldValuesView>::empty());
            Ok(out)
        },
        Some(b) => {
            let ghost live0 = heap.live_ids();
            let ghost items_ids = ids_of(b.items@, key_op_ids_fn());
            proof {
                lemma_middle_fresh(Seq::empty(), items_ids, seq![b.id], live0);
                assert(Seq::<usize>::empty() + items_ids + seq![b.id] =~= items_ids + seq![b.id]);
                lemma_middle_fresh(items_ids, seq![b.id], Seq::empty(), live0);
                assert(items_ids + seq![b.id] + Seq::<usize>::empty() =~= items_ids + seq![b.id]);
                assert(seq![b.id][0] == b.id);
                assert(live0.contains(b.id) && !items_ids.contains(b.id));
            }
            let (out, err) = take_key_op_items(heap, &b.items);
            heap.release(b.id);
            proof {
                assert(heap.live_ids() =~= without(live0, items_ids + seq![b.id]));
            }
            match err {
                Some(e) => Err(e),
                None => Ok(out),
            }
        },
    }
}

/// Takes the entries of a string array, visiting every entry.
fn take_string_items(heap: &mut NativeHeap, items: &Vec<NativeCString>) -> (r: (
    Vec<String>,
    Option<Exception>,
))
    requires
        old(heap).owns_all(ids_of(items@, cstring_ids_fn())),
    ensures
        final(heap).live_ids() == without(old(heap).live_ids(), ids_of(items@, cstring_ids_fn())),
        r.0@.map_values(|s: String| s@) == string_texts(items@),
        error_view(r.1) == first_error(items@, cstring_error_fn()),
{
    let ghost live0 = heap.live_ids();
    let ghost f = cstring_ids_fn();
    let mut out: Vec<String> = Vec::new();
    let mut err: Option<Exception> = None;
    let mut i: usize = 0;
    assert(items@.subrange(0, 0) =~= Seq::<NativeCString>::empty());
    assert(heap.live_ids() =~= without(live0, ids_of(items@.subrange(0, 0), f)));
    assert(out@.map_values(|s: String| s@) =~= Seq::<Seq<char>>::empty());
    while i < items.len()
        invariant
            i <= items@.len(),
            f == cstring_ids_fn(),
            ids_of(items@, f).no_duplicates(),
            forall|k: int| 0 <= k < ids_of(items@, f).len() ==> live0.contains(#[trigger] ids_of(items@, f)[k]),
            heap.live_ids() == without(live0, ids_of(items@.subrange(0, i as int), f)),
            out@.map_values(|s: String| s@) == string_texts(items@.subrange(0, i as int)),
            error_view(err) == first_error(items@.subrange(0, i as int), cstring_error_fn()),
        decreases items@.len() - i,
    {
        let ghost pre = ids_of(items@.subrange(0, i as int), f);
        let ghost mid = f(items@[i as int]);
        proof {
            lemma_ids_of_split(items@, f, i as int);
            lemma_middle_fresh(
                pre,
                mid,
                ids_of(items@.subrange(i + 1, items@.len() as int), f),
                live0,
            );
            lemma_ids_of_prefix(items@, f, i as int);
            lemma_first_error_prefix(items@, cstring_error_fn(), i as int);
            assert(items@.subrange(0, i + 1).drop_last() =~= items@.subrange(0, i as int));
            assert(mid[0] == items@[i as int].id);
        }
        let ghost out_before = out@;
        match take_cstr_ref(heap, &items[i]) {
            Ok(s) => {
                out.push(s);
                proof {
                    assert(out@.map_values(|s: String| s@) =~= out_before.map_values(|s: String| s@).push(
                        decode_utf8(items@[i as int].bytes@),
                    ));
                }
            },
            Err(x) => {
                if err.is_none() {
                    err = Some(x);
                }
            },
        }
        proof {
            assert(heap.live_ids() =~= without(live0, pre + mid));
        }
        i = i + 1;
    }
    assert(items@.subrange(0, items@.len() as int) =~= items@);
    (out, err)
}

/// Takes ownership of a native string array and turns it into host strings,
/// in order.
///
/// Every string is decoded and released exactly once, and the array block
/// too, whatever fails; on failure the first error met is returned. A null or
/// empty array gives no strings.
pub fn take_string_array(heap: &mut NativeHeap, arr: NativeStringArray) -> (r: Result<Vec<String>>)
    requires
        old(heap).owns_all(string_array_ids(arr)),
    ensures
        final(heap).live_ids() == without(old(heap).live_ids(), string_array_ids(arr)),
        r is Ok <==> string_array_error(arr) is None,
        r matches Ok(v) ==> v@.map_values(|s: String| s@) == string_array_texts(arr),
        r matches Err(e) ==> Some(e@) == string_array_error(arr),
{
    match arr.block {
        None => {
            assert(old(heap).live_ids() =~= without(old(heap).live_ids(), Seq::empty()));
            let out: Vec<String> = Vec::new();
            assert(out@.map_values(|s: String| s@) =~= Seq::<Seq<char>>::empty());
            Ok(out)
        },
        Some(b) => {
            let ghost live0 = heap.live_ids();
            let ghost items_ids = ids_of(b.items@, cstring_ids_fn());
            proof {
                lemma_middle_fresh(Seq::empty(), items_ids, seq![b.id], live0);
                assert(Seq::<usize>::empty() + items_ids + seq![b.id] =~= items_ids + seq![b.id]);
                lemma_middle_fresh(items_ids, seq![b.id], Seq::empty(), live0);
                assert(items_ids + seq![b.id] + Seq::<usize>::empty() =~= items_ids + seq![b.id]);
                assert(seq![b.id][0] == b.id);
                assert(live0.contains(b.id) && !items_ids.contains(b.id));
            }
            let (out, err) = take_string_items(heap, &b.items);
            heap.release(b.id);
            proof {
                assert(heap.live_ids() =~= without(live0, items_ids + seq![b.id]));
            }
            match err {
                Some(e) => Err(e),
                None => Ok(out),
            }
        },
    }
}

/// Native code of a call that succeeded.
pub const RAW_EXCEPTION_NONE: u32 = 0;

/// The status a native call reports: a code, and for a failure its message
/// and the place that raised it.
#[derive(Debug)]
pub struct NativeStatus {
    pub exception: u32,
    pub message: Option<NativeString>,
    pub location: Option<NativeString>,
}

/// Whether a failed status carries both its strings, live in the heap and
/// distinct.
pub open spec fn failure_strings_owned(heap: &NativeHeap, status: NativeStatus) -> bool {
    &&& status.message matches Some(m)
    &&& status.location matches Some(l)
    &&& m.id != l.id
    &&& heap.live_ids().contains(m.id)
    &&& heap.live_ids().contains(l.id)
}

/// The exception that a failed native status stands for.
pub open spec fn native_failure(status: NativeStatus) -> ExceptionView {
    ExceptionView {
        kind: ExceptionKind::Native,
        message: lossy_utf8(status.message->0.bytes@),
        location: lossy_utf8(status.location->0.bytes@),
    }
}

/// The ids a failed status owns.
pub open spec fn failure_ids(status: NativeStatus) -> Set<usize> {
    set![status.message->0.id, status.location->0.id]
}

impl Exception {
    /// Turns a failed native status into an exception, releasing its
    /// message and location strings.
    pub fn take(heap: &mut NativeHeap, status: NativeStatus) -> (r: Exception)
        requires
            status.exception != RAW_EXCEPTION_NONE,
            failure_strings_owned(&*old(heap), status),
        ensures
            r@ == native_failure(status),
            final(heap).live_ids() == old(heap).live_ids().difference(failure_ids(status)),
            final(heap).spare() == old(heap).spare(),
    {
        let m = status.message.unwrap();
        let l = status.location.unwrap();
        let message = string_from_utf8_lossy(m.bytes.as_slice());
        let location = string_from_utf8_lossy(l.bytes.as_slice());
        heap.release(m.id);
        heap.release(l.id);
        assert(heap.live_ids() =~= old(heap).live_ids().difference(failure_ids(status)));
        Exception::new(ExceptionKind::Native, message, location)
    }
}

/// What a native call's status means: success, or the native failure.
pub fn check_status(heap: &mut NativeHeap, status: NativeStatus) -> (r: Result<()>)
    requires
        status.exception != RAW_EXCEPTION_NONE ==> failure_strings_owned(&*old(heap), status),
    ensures
        r is Ok <==> status.exception == RAW_EXCEPTION_NONE,
        r is Ok ==> final(heap).live_ids() == old(heap).live_ids(),
        r matches Err(e) ==> e@ == native_failure(status) && final(heap).live_ids() == old(
            heap,
        ).live_ids().difference(failure_ids(status)),
        final(heap).spare() == old(heap).spare(),
{
    if status.exception == RAW_EXCEPTION_NONE {
        Ok(())
    } else {
        Err(Exception::take(heap, status))
    }
}

/// Whether the heap holds a failed status's strings.
pub open spec fn status_owned(heap: &NativeHeap, status: NativeStatus) -> bool {
    status.exception != RAW_EXCEPTION_NONE ==> failure_strings_owned(heap, status)
}

/// The ids that a status owns: its two strings where it reports a failure.
pub open spec fn status_ids(status: NativeStatus) -> Set<usize> {
    if status.exception != RAW_EXCEPTION_NONE {
        failure_ids(status)
    } else {
        Set::empty()
    }
}

/// The error of a native open: the error of encoding its arguments first,
/// then the failure the native side reported.
pub open spec fn open_error(encoding: Option<ExceptionView>, status: NativeStatus) -> Option<ExceptionView> {
    match encoding {
        Some(e) => Some(e),
        None => if status.exception != RAW_EXCEPTION_NONE {
            Some(native_failure(status))
        } else {
            None
        },
    }
}

/// Opens a native handle. `encoding` is the error of encoding the call's
/// arguments, if there was one; `status` is what the native open reported.
/// A failed status's strings are released whatever happens; a handle is
/// allocated only on success.
pub fn open_handle(heap: &mut NativeHeap, encoding: Option<Exception>, status: NativeStatus) -> (r: Result<usize>)
    requires
        old(heap).spare() > 0,
        status_owned(&*old(heap), status),
    ensures
        r is Ok <==> open_error(error_view(encoding), status) is None,
        r matches Err(e) ==> Some(e@) == open_error(error_view(encoding), status),
        r is Err ==> final(heap).live_ids() == old(heap).live_ids().difference(status_ids(status)),
        r matches Ok(h) ==> !old(heap).live_ids().contains(h) && final(heap).live_ids() == old(
            heap,
        ).live_ids().insert(h),
{
    match encoding {
        Some(e) => {
            if status.exception != RAW_EXCEPTION_NONE {
                let _ = Exception::take(heap, status);
            } else {
                assert(old(heap).live_ids().difference(Set::empty()) =~= old(heap).live_ids());
            }
            Err(e)
        },
        None => {
            match check_status(heap, status) {
                Err(e) => Err(e),
                Ok(()) => Ok(heap.allocate()),
            }
        },
    }
}

/// The outcome of a native call that returns no value: the error of
/// encoding its arguments first, then the failure the native side reported.
/// A failed status's strings are released whatever happens.
pub fn call_result(heap: &mut NativeHeap, encoding: Option<Exception>, status: NativeStatus) -> (r: Result<()>)
    requires
        status_owned(&*old(heap), status),
    ensures
        r is Ok <==> open_error(error_view(encoding), status) is None,
        r matches Err(e) ==> Some(e@) == open_error(error_view(encoding), status),
        final(heap).live_ids() == old(heap).live_ids().difference(status_ids(status)),
{
    match encoding {
        Some(e) => {
            if status.exception != RAW_EXCEPTION_NONE {
                let _ = Exception::take(heap, status);
            } else {
                assert(old(heap).live_ids().difference(Set::empty()) =~= old(heap).live_ids());
            }
            Err(e)
        },
        None => {
            let r = check_status(heap, status);
            proof {
                if status.exception == RAW_EXCEPTION_NONE {
                    assert(old(heap).live_ids().difference(Set::empty()) =~= old(heap).live_ids());
                }
            }
            r
        },
    }
}

} // verus!
