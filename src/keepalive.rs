use crate::cxxstring::CxxString;
use crate::exception::{Exception, ExceptionKind, ExceptionView, Result};
use crate::marshal::{first_error, lemma_first_error_extends, lemma_first_error_none, lemma_first_error_prefix};
use crate::numeral::{decimal, decimal_string};
use crate::record::{KeyOpFieldValues, KeyOperation};
use vstd::prelude::*;
use vstd::string::*;
use vstd::utf8::*;

verus! {

broadcast use vstd::seq_lib::group_seq_properties;

/// Largest length that a native array descriptor can carry.
pub const NATIVE_LEN_MAX: u32 = 0xffff_ffff;

/// One field → value tuple of an outbound array: the arena slots of the
/// encoded field name and of the value.
#[derive(Debug, Clone, Copy)]
pub struct FieldValueRef {
    pub field: usize,
    pub value: usize,
}

/// Descriptor of an outbound field → value array: the arena slot of its
/// tuple block, and its length.
#[derive(Debug, Clone, Copy)]
pub struct FieldValueArrayRef {
    pub data: usize,
    pub len: u32,
}

/// One key / operation / field-values tuple of an outbound array.
#[derive(Debug, Clone, Copy)]
pub struct KeyOpRef {
    pub key: usize,
    pub operation: u32,
    pub field_values: FieldValueArrayRef,
}

/// Descriptor of an outbound key / operation / field-values array.
#[derive(Debug, Clone, Copy)]
pub struct KeyOpArrayRef {
    pub data: usize,
    pub len: u32,
}

/// A buffer held alive for a native call.
#[derive(Debug)]
pub enum KeptBuffer {
    /// A NUL-terminated encoded string.
    CString(Vec<u8>),
    /// A value string.
    Value(CxxString),
    /// The tuple block of a field → value array.
    FieldValueTuples(Vec<FieldValueRef>),
    /// The tuple block of a key / operation / field-values array.
    KeyOpTuples(Vec<KeyOpRef>),
}

/// Arena that keeps every buffer of an outbound array alive until the native
/// call that reads them has returned; it is dropped as a whole afterwards.
/// A descriptor names its buffers by their slot in the arena.
#[derive(Debug)]
pub struct KeepAlive {
    buffers: Vec<KeptBuffer>,
}

impl View for KeepAlive {
    type V = Seq<KeptBuffer>;

    closed spec fn view(&self) -> Seq<KeptBuffer> {
        self.buffers@
    }
}

impl KeepAlive {
    /// An empty arena.
    pub fn new() -> (r: KeepAlive)
        ensures
            r@ == Seq::<KeptBuffer>::empty(),
    {
        KeepAlive { buffers: Vec::new() }
    }

    /// Keeps `b` alive and returns its slot.
    pub fn keep(&mut self, b: KeptBuffer) -> (slot: usize)
        ensures
            final(self)@ == old(self)@.push(b),
            slot == old(self)@.len(),
    {
        let slot = self.buffers.len();
        self.buffers.push(b);
        slot
    }

    /// The number of buffers kept.
    pub fn len(&self) -> (r: usize)
        ensures
            r == self@.len(),
    {
        self.buffers.len()
    }

    /// The buffer in `slot`, if there is one.
    pub fn get(&self, slot: usize) -> (r: Option<&KeptBuffer>)
        ensures
            r is Some <==> slot < self@.len(),
            r matches Some(b) ==> *b == self@[slot as int],
    {
        if slot < self.buffers.len() {
            Some(&self.buffers[slot])
        } else {
            None
        }
    }
}

/// The bytes of a string as a NUL-terminated native string.
pub open spec fn c_bytes(s: Seq<char>) -> Seq<u8> {
    encode_utf8(s).push(0u8)
}

/// Whether a string holds a NUL byte, which a NUL-terminated string cannot.
pub open spec fn has_nul(s: Seq<char>) -> bool {
    encode_utf8(s).contains(0u8)
}

/// The index of the first NUL byte of `b`, where it has one.
pub open spec fn first_nul(b: Seq<u8>) -> int {
    choose|p: int| 0 <= p < b.len() && b[p] == 0 && forall|j: int| 0 <= j < p ==> b[j] != 0
}

/// The error for a string whose first NUL byte is at `position`.
pub open spec fn nul_error(position: nat) -> ExceptionView {
    ExceptionView {
        kind: ExceptionKind::Encoding,
        message: "String contains null byte at position "@ + decimal(position),
        location: "cstr"@,
    }
}

/// The error for a string that holds a NUL byte.
pub open spec fn nul_error_of(s: Seq<char>) -> ExceptionView {
    nul_error(first_nul(encode_utf8(s)) as nat)
}

/// The error that encoding a string as a native string gives, if any.
pub open spec fn name_error(s: Seq<char>) -> Option<ExceptionView> {
    if has_nul(s) {
        Some(nul_error_of(s))
    } else {
        None
    }
}

/// The error that encoding `s` as a native string gives, if any.
pub fn encoding_error(s: &str) -> (r: Option<Exception>)
    ensures
        crate::marshal::error_view(r) == name_error(s@),
{
    match cstr(s) {
        Ok(_) => None,
        Err(e) => Some(e),
    }
}

/// The error that encoding the field of a pair gives, if any.
pub open spec fn pair_error(p: (String, CxxString)) -> Option<ExceptionView> {
    name_error(p.0@)
}

/// [`pair_error`] as a function value.
pub open spec fn pair_error_fn() -> spec_fn((String, CxxString)) -> Option<ExceptionView> {
    |p: (String, CxxString)| pair_error(p)
}

/// The error for a host collection longer than a native array can be.
pub open spec fn capacity_error() -> ExceptionView {
    ExceptionView {
        kind: ExceptionKind::Capacity,
        message: "array length exceeds maximum for target type"@,
        location: "native_len"@,
    }
}

/// The error for a `Write` record without fields, which the native wire
/// format cannot tell from a delete.
pub open spec fn empty_write_error() -> ExceptionView {
    ExceptionView {
        kind: ExceptionKind::Invariant,
        message: "a Write record must carry at least one field"@,
        location: "make_key_op_field_values_array"@,
    }
}

/// Checks that a host collection length fits the native length field.
pub fn native_len(n: usize) -> (r: Result<u32>)
    ensures
        r is Ok <==> n <= NATIVE_LEN_MAX,
        r matches Ok(v) ==> v == n,
        r matches Err(e) ==> e@ == capacity_error(),
{
    if n <= NATIVE_LEN_MAX as usize {
        Ok(n as u32)
    } else {
        Err(
            Exception::new(
                ExceptionKind::Capacity,
                "array length exceeds maximum for target type".to_owned(),
                "native_len".to_owned(),
            ),
        )
    }
}

/// Encodes a string as a NUL-terminated native string; fails if it holds a
/// NUL byte.
pub fn cstr(s: &str) -> (r: Result<Vec<u8>>)
    ensures
        r is Ok <==> !has_nul(s@),
        r matches Ok(b) ==> b@ == c_bytes(s@),
        r matches Err(e) ==> e@ == nul_error_of(s@),
{
    let b = s.as_bytes();
    let mut out: Vec<u8> = Vec::new();
    let mut i: usize = 0;
    while i < b.len()
        invariant
            b@ == encode_utf8(s@),
            i <= b@.len(),
            out@ == b@.subrange(0, i as int),
            forall|j: int| 0 <= j < i ==> b@[j] != 0u8,
        decreases b@.len() - i,
    {
        if b[i] == 0 {
            proof {
                assert(b@[i as int] == 0u8);
                assert(b@.contains(0u8));
                let p = first_nul(b@);
                assert(0 <= p < b@.len() && b@[p] == 0 && forall|j: int| 0 <= j < p ==> b@[j] != 0);
                if p < i {
                    assert(b@[p] != 0);
                }
                if p > i {
                    assert(b@[i as int] != 0);
                }
                assert(p == i);
            }
            let mut message = "String contains null byte at position ".to_owned();
            message.append(decimal_string(i as u64).as_str());
            return Err(Exception::new(ExceptionKind::Encoding, message, "cstr".to_owned()));
        }
        out.push(b[i]);
        proof {
            assert(out@ =~= b@.subrange(0, i + 1));
        }
        i = i + 1;
    }
    proof {
        assert(out@ =~= b@);
        assert(!b@.contains(0u8)) by {
            if b@.contains(0u8) {
                let j = choose|j: int| 0 <= j < b@.len() && b@[j] == 0u8;
            }
        }
    }
    out.push(0u8);
    Ok(out)
}

/// The encoded string in `slot`, if that slot holds one.
pub open spec fn kept_c_string(k: Seq<KeptBuffer>, slot: usize) -> Option<Seq<u8>> {
    if slot < k.len() {
        match k[slot as int] {
            KeptBuffer::CString(b) => Some(b@),
            _ => None,
        }
    } else {
        None
    }
}

/// The value string in `slot`, if that slot holds one.
pub open spec fn kept_value(k: Seq<KeptBuffer>, slot: usize) -> Option<Seq<u8>> {
    if slot < k.len() {
        match k[slot as int] {
            KeptBuffer::Value(c) => Some(c@),
            _ => None,
        }
    } else {
        None
    }
}

/// What the native side reads through one field → value tuple.
pub open spec fn read_field_value(k: Seq<KeptBuffer>, r: FieldValueRef) -> Option<(Seq<u8>, Seq<u8>)> {
    match (kept_c_string(k, r.field), kept_value(k, r.value)) {
        (Some(f), Some(v)) => Some((f, v)),
        _ => None,
    }
}

/// What the native side reads through a field → value descriptor: `None`
/// where a reference does not lead to a kept buffer of the right kind.
pub open spec fn read_field_values(k: Seq<KeptBuffer>, a: FieldValueArrayRef) -> Option<Seq<(Seq<u8>, Seq<u8>)>> {
    if a.data < k.len() {
        match k[a.data as int] {
            KeptBuffer::FieldValueTuples(t) => {
                if t@.len() == a.len && forall|i: int| 0 <= i < t@.len() ==> (read_field_value(k, #[trigger] t@[i]) is Some) {
                    Some(Seq::new(t@.len(), |i: int| read_field_value(k, t@[i])->0))
                } else {
                    None
                }
            },
            _ => None,
        }
    } else {
        None
    }
}

/// What the native side reads through one key / operation / field-values
/// tuple.
pub open spec fn read_key_op(k: Seq<KeptBuffer>, r: KeyOpRef) -> Option<(Seq<u8>, u32, Seq<(Seq<u8>, Seq<u8>)>)> {
    match (kept_c_string(k, r.key), read_field_values(k, r.field_values)) {
        (Some(key), Some(fvs)) => Some((key, r.operation, fvs)),
        _ => None,
    }
}

/// What the native side reads through a key / operation / field-values
/// descriptor.
pub open spec fn read_key_ops(k: Seq<KeptBuffer>, a: KeyOpArrayRef) -> Option<Seq<(Seq<u8>, u32, Seq<(Seq<u8>, Seq<u8>)>)>> {
    if a.data < k.len() {
        match k[a.data as int] {
            KeptBuffer::KeyOpTuples(t) => {
                if t@.len() == a.len && forall|i: int| 0 <= i < t@.len() ==> (read_key_op(k, #[trigger] t@[i]) is Some) {
                    Some(Seq::new(t@.len(), |i: int| read_key_op(k, t@[i])->0))
                } else {
                    None
                }
            },
            _ => None,
        }
    } else {
        None
    }
}

/// The encoded form of field → value pairs: each field NUL-terminated, each
/// value as it is.
pub open spec fn encoded_field_values(s: Seq<(String, CxxString)>) -> Seq<(Seq<u8>, Seq<u8>)> {
    Seq::new(s.len(), |i: int| (c_bytes(s[i].0@), s[i].1@))
}

/// The error that encoding field → value pairs gives, if any: a NUL byte in
/// a field name first, then a length the native side cannot carry.
pub open spec fn field_values_encode_error(s: Seq<(String, CxxString)>) -> Option<ExceptionView> {
    if first_error(s, pair_error_fn()) is Some {
        first_error(s, pair_error_fn())
    } else if s.len() > NATIVE_LEN_MAX {
        Some(capacity_error())
    } else {
        None
    }
}

/// The encoded form of a record: its key NUL-terminated, its operation code
/// and its encoded fields.
pub open spec fn encoded_record(r: KeyOpFieldValues) -> (Seq<u8>, u32, Seq<(Seq<u8>, Seq<u8>)>) {
    (c_bytes(r.key@), r.operation.spec_as_raw(), encoded_field_values(r.field_values.entries_spec()))
}

/// The error that encoding a record gives, if any: its key, then a `Write`
/// without fields, then its fields.
pub open spec fn record_encode_error(r: KeyOpFieldValues) -> Option<ExceptionView> {
    if has_nul(r.key@) {
        Some(nul_error_of(r.key@))
    } else if r.operation == KeyOperation::Write && r.field_values.entries_spec().len() == 0 {
        Some(empty_write_error())
    } else {
        field_values_encode_error(r.field_values.entries_spec())
    }
}

/// [`record_encode_error`] as a function value.
pub open spec fn record_encode_error_fn() -> spec_fn(KeyOpFieldValues) -> Option<ExceptionView> {
    |r: KeyOpFieldValues| record_encode_error(r)
}

/// The error that encoding a batch of records gives, if any: the first
/// record's error, then a length the native side cannot carry.
pub open spec fn records_encode_error(s: Seq<KeyOpFieldValues>) -> Option<ExceptionView> {
    match first_error(s, record_encode_error_fn()) {
        Some(e) => Some(e),
        None => if s.len() > NATIVE_LEN_MAX {
            Some(capacity_error())
        } else {
            None
        },
    }
}

/// A batch whose every record encodes, but that is longer than a native
/// length can count, is refused with the capacity error, never truncated.
pub proof fn lemma_oversized_batch_is_capacity_error(s: Seq<KeyOpFieldValues>)
    requires
        forall|i: int| 0 <= i < s.len() ==> record_encode_error(#[trigger] s[i]) is None,
        s.len() > NATIVE_LEN_MAX,
    ensures
        records_encode_error(s) == Some(capacity_error()),
{
    lemma_first_error_none(s, record_encode_error_fn());
}

/// Pairs whose every field encodes, but more than a native length can
/// count, are refused with the capacity error.
pub proof fn lemma_oversized_pairs_is_capacity_error(s: Seq<(String, CxxString)>)
    requires
        forall|i: int| 0 <= i < s.len() ==> !has_nul(#[trigger] s[i].0@),
        s.len() > NATIVE_LEN_MAX,
    ensures
        field_values_encode_error(s) == Some(capacity_error()),
{
    lemma_first_error_none(s, pair_error_fn());
}

/// Whether `k2` keeps the buffers of `k` in their slots.
pub open spec fn extends(k: Seq<KeptBuffer>, k2: Seq<KeptBuffer>) -> bool {
    k.len() <= k2.len() && forall|i: int| 0 <= i < k.len() ==> k2[i] == #[trigger] k[i]
}

proof fn lemma_read_field_values_stable(k: Seq<KeptBuffer>, k2: Seq<KeptBuffer>, a: FieldValueArrayRef)
    requires
        extends(k, k2),
        read_field_values(k, a) is Some,
    ensures
        read_field_values(k2, a) == read_field_values(k, a),
{
    assert(k2[a.data as int] == k[a.data as int]);
    if let KeptBuffer::FieldValueTuples(t) = k[a.data as int] {
        assert forall|i: int| 0 <= i < t@.len() implies read_field_value(k2, #[trigger] t@[i]) == read_field_value(k, t@[i]) by {
            assert(read_field_value(k, t@[i]) is Some);
            let r = t@[i];
            assert(k2[r.field as int] == k[r.field as int]);
            assert(k2[r.value as int] == k[r.value as int]);
        }
        assert(read_field_values(k2, a)->0 =~= read_field_values(k, a)->0);
    }
}

/// Encodes field → value pairs into `keep`, returning the descriptor of the
/// native array.
#[verifier::rlimit(60)]
fn make_field_value_array_into(keep: &mut KeepAlive, fvs: &Vec<(String, CxxString)>) -> (r: Result<
    FieldValueArrayRef,
>)
    ensures
        extends(old(keep)@, final(keep)@),
        r is Ok <==> field_values_encode_error(fvs@) is None,
        r matches Err(e) ==> Some(e@) == field_values_encode_error(fvs@),
        r matches Ok(a) ==> read_field_values(final(keep)@, a) == Some(encoded_field_values(fvs@)),
{
    let mut data: Vec<FieldValueRef> = Vec::new();
    let mut i: usize = 0;
    while i < fvs.len()
        invariant
            i <= fvs@.len(),
            data@.len() == i,
            extends(old(keep)@, keep@),
            first_error(fvs@.subrange(0, i as int), pair_error_fn()) is None,
            forall|j: int|
                0 <= j < i ==> read_field_value(keep@, #[trigger] data@[j]) == Some(
                    (c_bytes(fvs@[j].0@), fvs@[j].1@),
                ),
        decreases fvs@.len() - i,
    {
        proof {
            lemma_first_error_prefix(fvs@, pair_error_fn(), i as int);
            if pair_error(fvs@[i as int]) is Some {
                lemma_first_error_extends(fvs@, pair_error_fn(), i + 1);
            }
        }
        let field = match cstr(fvs[i].0.as_str()) {
            Ok(b) => b,
            Err(e) => {
                return Err(e);
            },
        };
        let ghost kb = keep@;
        let field_slot = keep.keep(KeptBuffer::CString(field));
        let value_slot = keep.keep(KeptBuffer::Value(fvs[i].1.clone()));
        let ghost ka = keep@;
        proof {
            assert forall|j: int| 0 <= j < i implies read_field_value(ka, #[trigger] data@[j])
                == read_field_value(kb, data@[j]) by {
                let r = data@[j];
                assert(read_field_value(kb, r) is Some);
                assert(ka[r.field as int] == kb[r.field as int]);
                assert(ka[r.value as int] == kb[r.value as int]);
            }
        }
        data.push(FieldValueRef { field: field_slot, value: value_slot });
        i = i + 1;
    }
    assert(fvs@.subrange(0, fvs@.len() as int) =~= fvs@);
    let len = match native_len(data.len()) {
        Ok(n) => n,
        Err(e) => {
            return Err(e);
        },
    };
    let ghost kb = keep@;
    let ghost t = data@;
    let slot = keep.keep(KeptBuffer::FieldValueTuples(data));
    proof {
        let ka = keep@;
        assert forall|j: int| 0 <= j < t.len() implies read_field_value(ka, #[trigger] t[j])
            == read_field_value(kb, t[j]) by {
            let r = t[j];
            assert(read_field_value(kb, r) is Some);
            assert(ka[r.field as int] == kb[r.field as int]);
            assert(ka[r.value as int] == kb[r.value as int]);
        }
        assert(read_field_values(ka, FieldValueArrayRef { data: slot, len })->0 =~= encoded_field_values(
            fvs@,
        ));
    }
    Ok(FieldValueArrayRef { data: slot, len })
}

/// Builds a native field → value array from host pairs, in order.
///
/// Each field name is encoded as a NUL-terminated string and each value is
/// copied into a value string; the returned arena keeps every one of those
/// buffers, and the tuple block, alive for as long as it lives. A field
/// holding a NUL byte is an encoding error; more pairs than a native length
/// can count is a capacity error.
pub fn make_field_value_array(fvs: &Vec<(String, CxxString)>) -> (r: Result<(FieldValueArrayRef, KeepAlive)>)
    ensures
        r is Ok <==> field_values_encode_error(fvs@) is None,
        r matches Err(e) ==> Some(e@) == field_values_encode_error(fvs@),
        r matches Ok((a, k)) ==> read_field_values(k@, a) == Some(encoded_field_values(fvs@)),
{
    let mut keep = KeepAlive::new();
    match make_field_value_array_into(&mut keep, fvs) {
        Ok(a) => Ok((a, keep)),
        Err(e) => Err(e),
    }
}

proof fn lemma_read_key_op_stable(k: Seq<KeptBuffer>, k2: Seq<KeptBuffer>, r: KeyOpRef)
    requires
        extends(k, k2),
        read_key_op(k, r) is Some,
    ensures
        read_key_op(k2, r) == read_key_op(k, r),
{
    assert(k2[r.key as int] == k[r.key as int]);
    lemma_read_field_values_stable(k, k2, r.field_values);
}

/// Builds a native key / operation / field-values array from host records,
/// in order.
///
/// Every encoded key, every nested field → value array and the tuple block
/// are kept alive by the one returned arena. The first record that cannot be
/// encoded decides the error: a NUL byte in its key, a `Write` without
/// fields, or the error of its fields; then a batch longer than a native
/// length can count is a capacity error.
pub fn make_key_op_field_values_array(kfvs: &Vec<KeyOpFieldValues>) -> (r: Result<(KeyOpArrayRef, KeepAlive)>)
    ensures
        r is Ok <==> records_encode_error(kfvs@) is None,
        r matches Err(e) ==> Some(e@) == records_encode_error(kfvs@),
        r matches Ok((a, k)) ==> read_key_ops(k@, a) == Some(
            Seq::new(kfvs@.len(), |i: int| encoded_record(kfvs@[i])),
        ),
{
    let mut keep = KeepAlive::new();
    let mut data: Vec<KeyOpRef> = Vec::new();
    let mut i: usize = 0;
    assert(kfvs@.subrange(0, 0) =~= Seq::<KeyOpFieldValues>::empty());
    while i < kfvs.len()
        invariant
            i <= kfvs@.len(),
            data@.len() == i,
            first_error(kfvs@.subrange(0, i as int), record_encode_error_fn()) is None,
            forall|j: int|
                0 <= j < i ==> read_key_op(keep@, #[trigger] data@[j]) == Some(encoded_record(kfvs@[j])),
        decreases kfvs@.len() - i,
    {
        proof {
            lemma_first_error_prefix(kfvs@, record_encode_error_fn(), i as int);
            if record_encode_error(kfvs@[i as int]) is Some {
                lemma_first_error_extends(kfvs@, record_encode_error_fn(), i + 1);
            }
        }
        let record = &kfvs[i];
        let key = match cstr(record.key.as_str()) {
            Ok(b) => b,
            Err(e) => {
                return Err(e);
            },
        };
        let entries = record.field_values.entries();
        if record.operation == KeyOperation::Write && entries.len() == 0 {
            return Err(
                Exception::new(
                    ExceptionKind::Invariant,
                    "a Write record must carry at least one field".to_owned(),
                    "make_key_op_field_values_array".to_owned(),
                ),
            );
        }
        let ghost kb = keep@;
        let key_slot = keep.keep(KeptBuffer::CString(key));
        let ghost kk = keep@;
        let field_values = match make_field_value_array_into(&mut keep, entries) {
            Ok(a) => a,
            Err(e) => {
                return Err(e);
            },
        };
        let ghost ka = keep@;
        proof {
            assert(extends(kb, kk));
            assert(extends(kb, ka));
            assert(kk[key_slot as int] == ka[key_slot as int]);
            assert forall|j: int| 0 <= j < i implies read_key_op(ka, #[trigger] data@[j]) == read_key_op(kb, data@[j]) by {
                lemma_read_key_op_stable(kb, ka, data@[j]);
            }
        }
        data.push(KeyOpRef { key: key_slot, operation: record.operation.as_raw(), field_values });
        i = i + 1;
    }
    assert(kfvs@.subrange(0, kfvs@.len() as int) =~= kfvs@);
    let len = match native_len(data.len()) {
        Ok(n) => n,
        Err(e) => {
            return Err(e);
        },
    };
    let ghost kb = keep@;
    let ghost t = data@;
    let slot = keep.keep(KeptBuffer::KeyOpTuples(data));
    proof {
        let ka = keep@;
        assert(extends(kb, ka));
        assert forall|j: int| 0 <= j < t.len() implies read_key_op(ka, #[trigger] t[j]) == read_key_op(kb, t[j]) by {
            lemma_read_key_op_stable(kb, ka, t[j]);
        }
        assert(read_key_ops(ka, KeyOpArrayRef { data: slot, len })->0 =~= Seq::new(
            kfvs@.len(),
            |i: int| encoded_record(kfvs@[i]),
        ));
    }
    Ok((KeyOpArrayRef { data: slot, len }, keep))
}

/// The views of read field → value pairs.
pub open spec fn pair_views(v: Seq<(Vec<u8>, Vec<u8>)>) -> Seq<(Seq<u8>, Seq<u8>)> {
    v.map_values(|p: (Vec<u8>, Vec<u8>)| (p.0@, p.1@))
}

/// Reads a field → value array the way the native call does: through the
/// descriptor, from the buffers that the arena keeps. `None` where a
/// reference does not lead to a kept buffer of the right kind.
pub fn read_field_value_array(keep: &KeepAlive, a: &FieldValueArrayRef) -> (r: Option<Vec<(Vec<u8>, Vec<u8>)>>)
    ensures
        r is Some <==> read_field_values(keep@, *a) is Some,
        r matches Some(v) ==> pair_views(v@) == read_field_values(keep@, *a)->0,
{
    let t = match keep.get(a.data) {
        Some(KeptBuffer::FieldValueTuples(t)) => t,
        _ => {
            return None;
        },
    };
    if t.len() != a.len as usize {
        return None;
    }
    let mut out: Vec<(Vec<u8>, Vec<u8>)> = Vec::new();
    let mut i: usize = 0;
    while i < t.len()
        invariant
            i <= t@.len(),
            a.data < keep@.len(),
            keep@[a.data as int] == KeptBuffer::FieldValueTuples(*t),
            t@.len() == a.len,
            out@.len() == i,
            forall|j: int| 0 <= j < i ==> (read_field_value(keep@, #[trigger] t@[j]) is Some),
            forall|j: int| 0 <= j < i ==> (#[trigger] out@[j]).0@ == (read_field_value(keep@, t@[j])->0).0
                && out@[j].1@ == (read_field_value(keep@, t@[j])->0).1,
        decreases t@.len() - i,
    {
        let r = t[i];
        let field = match keep.get(r.field) {
            Some(KeptBuffer::CString(b)) => vstd::slice::slice_to_vec(b.as_slice()),
            _ => {
                assert(read_field_value(keep@, t@[i as int]) is None);
                return None;
            },
        };
        let value = match keep.get(r.value) {
            Some(KeptBuffer::Value(c)) => vstd::slice::slice_to_vec(c.as_bytes()),
            _ => {
                assert(read_field_value(keep@, t@[i as int]) is None);
                return None;
            },
        };
        out.push((field, value));
        i = i + 1;
    }
    assert(pair_views(out@) =~= read_field_values(keep@, *a)->0);
    Some(out)
}

/// The views of read key / operation / field-values tuples.
pub open spec fn key_op_views(v: Seq<(Vec<u8>, u32, Vec<(Vec<u8>, Vec<u8>)>)>) -> Seq<(Seq<u8>, u32, Seq<(Seq<u8>, Seq<u8>)>)> {
    v.map_values(|t: (Vec<u8>, u32, Vec<(Vec<u8>, Vec<u8>)>)| (t.0@, t.1, pair_views(t.2@)))
}

/// Reads a key / operation / field-values array the way the native call
/// does, from the buffers that the arena keeps.
pub fn read_key_op_array(keep: &KeepAlive, a: &KeyOpArrayRef) -> (r: Option<Vec<(Vec<u8>, u32, Vec<(Vec<u8>, Vec<u8>)>)>>)
    ensures
        r is Some <==> read_key_ops(keep@, *a) is Some,
        r matches Some(v) ==> key_op_views(v@) == read_key_ops(keep@, *a)->0,
{
    let t = match keep.get(a.data) {
        Some(KeptBuffer::KeyOpTuples(t)) => t,
        _ => {
            return None;
        },
    };
    if t.len() != a.len as usize {
        return None;
    }
    let mut out: Vec<(Vec<u8>, u32, Vec<(Vec<u8>, Vec<u8>)>)> = Vec::new();
    let mut i: usize = 0;
    while i < t.len()
        invariant
            i <= t@.len(),
            a.data < keep@.len(),
            keep@[a.data as int] == KeptBuffer::KeyOpTuples(*t),
            t@.len() == a.len,
            out@.len() == i,
            forall|j: int| 0 <= j < i ==> (read_key_op(keep@, #[trigger] t@[j]) is Some),
            forall|j: int|
                0 <= j < i ==> ((#[trigger] out@[j]).0@, out@[j].1, pair_views(out@[j].2@)) == read_key_op(
                    keep@,
                    t@[j],
                )->0,
        decreases t@.len() - i,
    {
        let r = t[i];
        let key = match keep.get(r.key) {
            Some(KeptBuffer::CString(b)) => vstd::slice::slice_to_vec(b.as_slice()),
            _ => {
                assert(read_key_op(keep@, t@[i as int]) is None);
                return None;
            },
        };
        let field_values = match read_field_value_array(keep, &r.field_values) {
            Some(v) => v,
            None => {
                assert(read_key_op(keep@, t@[i as int]) is None);
                return None;
            },
        };
        out.push((key, r.operation, field_values));
        i = i + 1;
    }
    assert(key_op_views(out@) =~= read_key_ops(keep@, *a)->0);
    Some(out)
}

} // verus!
