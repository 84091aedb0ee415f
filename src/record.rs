use crate::cxxstring::CxxString;
use vstd::prelude::*;
use vstd::string::*;
use vstd::utf8::*;

verus! {

broadcast use vstd::utf8::encode_utf8_decode_utf8;

/// Native code for a [`KeyOperation::Write`].
pub const RAW_KEY_OPERATION_SET: u32 = 0;

/// Native code for a [`KeyOperation::Del`].
pub const RAW_KEY_OPERATION_DEL: u32 = 1;

/// Native code for [`SelectResult::Data`].
pub const RAW_SELECT_DATA: u32 = 0;

/// Native code for [`SelectResult::Signal`].
pub const RAW_SELECT_SIGNAL: u32 = 1;

/// Native code for [`SelectResult::Timeout`].
pub const RAW_SELECT_TIMEOUT: u32 = 2;

/// Outcome of a readiness wait.
#[derive(Debug, Clone, Copy, PartialEq, Eq, Structural)]
pub enum SelectResult {
    /// Data is now available.
    Data,
    /// Waiting was interrupted by a signal.
    Signal,
    /// Timed out.
    Timeout,
}

impl SelectResult {
    /// The result that a native readiness code stands for, if any.
    pub open spec fn spec_from_raw(raw: u32) -> Option<SelectResult> {
        if raw == RAW_SELECT_DATA {
            Some(SelectResult::Data)
        } else if raw == RAW_SELECT_SIGNAL {
            Some(SelectResult::Signal)
        } else if raw == RAW_SELECT_TIMEOUT {
            Some(SelectResult::Timeout)
        } else {
            None
        }
    }

    /// Maps a native readiness code; the native side only returns the
    /// three known codes.
    pub fn from_raw(raw: u32) -> (r: SelectResult)
        requires
            Self::spec_from_raw(raw) is Some,
        ensures
            Self::spec_from_raw(raw) == Some(r),
    {
        if raw == RAW_SELECT_DATA {
            SelectResult::Data
        } else if raw == RAW_SELECT_SIGNAL {
            SelectResult::Signal
        } else {
            SelectResult::Timeout
        }
    }
}

/// Operation carried by a record: write its fields, or delete its key.
#[derive(Debug, Clone, Copy, PartialEq, Eq, Structural)]
pub enum KeyOperation {
    /// Write the record's fields under its key; spelled `"SET"` in text.
    Write,
    /// Delete the key; spelled `"DEL"` in text.
    Del,
}

/// The ASCII upper-case form of a byte; other bytes are unchanged.
pub open spec fn ascii_upper(b: u8) -> u8 {
    if 97 <= b <= 122 {
        (b - 32) as u8
    } else {
        b
    }
}

/// Whether `b` spells `word` (upper-case ASCII bytes), ignoring ASCII case.
pub open spec fn matches_ignoring_case(b: Seq<u8>, word: Seq<u8>) -> bool {
    b.len() == word.len() && forall|i: int| 0 <= i < b.len() ==> ascii_upper(#[trigger] b[i]) == word[i]
}

/// The operation that the bytes of a string name, ignoring ASCII case.
pub open spec fn spec_parse_key_operation(b: Seq<u8>) -> Option<KeyOperation> {
    if matches_ignoring_case(b, seq![83u8, 69u8, 84u8]) {
        Some(KeyOperation::Write)
    } else if matches_ignoring_case(b, seq![68u8, 69u8, 76u8]) {
        Some(KeyOperation::Del)
    } else {
        None
    }
}

fn upper_byte(b: u8) -> (r: u8)
    ensures
        r == ascii_upper(b),
{
    if 97 <= b && b <= 122 {
        b - 32
    } else {
        b
    }
}

impl KeyOperation {
    /// The native code of this operation.
    pub open spec fn spec_as_raw(self) -> u32 {
        match self {
            KeyOperation::Write => RAW_KEY_OPERATION_SET,
            KeyOperation::Del => RAW_KEY_OPERATION_DEL,
        }
    }

    /// The operation that a native code stands for, if any.
    pub open spec fn spec_from_raw(raw: u32) -> Option<KeyOperation> {
        if raw == RAW_KEY_OPERATION_SET {
            Some(KeyOperation::Write)
        } else if raw == RAW_KEY_OPERATION_DEL {
            Some(KeyOperation::Del)
        } else {
            None
        }
    }

    /// The native code of this operation.
    pub fn as_raw(self) -> (r: u32)
        ensures
            r == self.spec_as_raw(),
            Self::spec_from_raw(r) == Some(self),
    {
        match self {
            KeyOperation::Write => RAW_KEY_OPERATION_SET,
            KeyOperation::Del => RAW_KEY_OPERATION_DEL,
        }
    }

    /// Maps a native operation code; the native side only returns the
    /// two known codes.
    pub fn from_raw(raw: u32) -> (r: KeyOperation)
        requires
            Self::spec_from_raw(raw) is Some,
        ensures
            Self::spec_from_raw(raw) == Some(r),
            r.spec_as_raw() == raw,
    {
        if raw == RAW_KEY_OPERATION_SET {
            KeyOperation::Write
        } else {
            KeyOperation::Del
        }
    }

    /// Reads `"SET"` or `"DEL"`, in any ASCII case.
    pub fn parse(s: &str) -> (r: core::result::Result<KeyOperation, InvalidKeyOperationString>)
        ensures
            spec_parse_key_operation(s.spec_bytes()) matches Some(op) ==> r == Ok::<
                KeyOperation,
                InvalidKeyOperationString,
            >(op),
            spec_parse_key_operation(s.spec_bytes()) is None ==> r is Err && r->Err_0@ == s@,
    {
        let b = s.as_bytes();
        if b.len() != 3 {
            return Err(InvalidKeyOperationString(s.to_owned()));
        }
        let u0 = upper_byte(b[0]);
        let u1 = upper_byte(b[1]);
        let u2 = upper_byte(b[2]);
        let ghost set_word = seq![83u8, 69u8, 84u8];
        let ghost del_word = seq![68u8, 69u8, 76u8];
        assert(matches_ignoring_case(b@, set_word) <==> (u0 == 83 && u1 == 69 && u2 == 84));
        assert(matches_ignoring_case(b@, del_word) <==> (u0 == 68 && u1 == 69 && u2 == 76));
        if u0 == 83 && u1 == 69 && u2 == 84 {
            Ok(KeyOperation::Write)
        } else if u0 == 68 && u1 == 69 && u2 == 76 {
            Ok(KeyOperation::Del)
        } else {
            Err(InvalidKeyOperationString(s.to_owned()))
        }
    }
}

impl core::str::FromStr for KeyOperation {
    type Err = InvalidKeyOperationString;

    /// Reads `"SET"` or `"DEL"`, in any ASCII case.
    fn from_str(s: &str) -> core::result::Result<KeyOperation, InvalidKeyOperationString> {
        KeyOperation::parse(s)
    }
}

/// Error of [`KeyOperation::parse`]: the string that was neither `"SET"` nor
/// `"DEL"`.
#[derive(Debug)]
pub struct InvalidKeyOperationString(pub String);

impl View for InvalidKeyOperationString {
    type V = Seq<char>;

    open spec fn view(&self) -> Seq<char> {
        self.0@
    }
}

impl InvalidKeyOperationString {
    /// The human-readable form of the error.
    pub fn to_string(&self) -> (r: String)
        ensures
            r@ == "A KeyOperation String must be \"SET\" or \"DEL\", but was "@ + self@,
    {
        let mut r = "A KeyOperation String must be \"SET\" or \"DEL\", but was ".to_owned();
        r.append(self.0.as_str());
        r
    }
}

/// Whether no two entries share a field name.
pub open spec fn unique_fields(s: Seq<(String, CxxString)>) -> bool {
    forall|i: int, j: int| 0 <= i < s.len() && 0 <= j < s.len() && i != j ==> s[i].0@ != s[j].0@
}

/// The map that inserting the pairs in order builds: a later pair replaces
/// an earlier one with the same field.
pub open spec fn pairs_map(s: Seq<(String, CxxString)>) -> Map<Seq<char>, Seq<u8>>
    decreases s.len(),
{
    if s.len() == 0 {
        Map::empty()
    } else {
        pairs_map(s.drop_last()).insert(s.last().0@, s.last().1@)
    }
}

proof fn lemma_pairs_map_unique(s: Seq<(String, CxxString)>)
    requires
        unique_fields(s),
    ensures
        forall|i: int| 0 <= i < s.len() ==> #[trigger] pairs_map(s).contains_key(s[i].0@)
            && pairs_map(s)[s[i].0@] == s[i].1@,
        forall|k: Seq<char>| #[trigger] pairs_map(s).contains_key(k) ==> exists|i: int|
            0 <= i < s.len() && s[i].0@ == k,
    decreases s.len(),
{
    if s.len() > 0 {
        let p = s.drop_last();
        assert(unique_fields(p));
        lemma_pairs_map_unique(p);
        assert forall|k: Seq<char>| #[trigger] pairs_map(s).contains_key(k) implies exists|i: int|
            0 <= i < s.len() && s[i].0@ == k by {
            if k != s.last().0@ {
                assert(pairs_map(p).contains_key(k));
                let i = choose|i: int| 0 <= i < p.len() && p[i].0@ == k;
                assert(s[i] == p[i]);
            }
        }
        assert forall|i: int| 0 <= i < s.len() implies #[trigger] pairs_map(s).contains_key(s[i].0@)
            && pairs_map(s)[s[i].0@] == s[i].1@ by {
            if i < s.len() - 1 {
                assert(s[i] == p[i]);
                assert(pairs_map(p).contains_key(p[i].0@));
            }
        }
    }
}

proof fn lemma_pairs_map_update(s: Seq<(String, CxxString)>, i: int, x: (String, CxxString))
    requires
        unique_fields(s),
        0 <= i < s.len(),
        s[i].0@ == x.0@,
    ensures
        pairs_map(s.update(i, x)) == pairs_map(s).insert(x.0@, x.1@),
        unique_fields(s.update(i, x)),
    decreases s.len(),
{
    let t = s.update(i, x);
    if i == s.len() - 1 {
        assert(t.drop_last() =~= s.drop_last());
        assert(pairs_map(t) =~= pairs_map(s).insert(x.0@, x.1@));
    } else {
        let p = s.drop_last();
        assert(unique_fields(p));
        lemma_pairs_map_update(p, i, x);
        assert(t.drop_last() =~= p.update(i, x));
        assert(s.last().0@ != x.0@);
        assert(pairs_map(t) =~= pairs_map(s).insert(x.0@, x.1@));
    }
}

/// A field → value map with unique field names, kept in insertion order.
#[derive(Debug)]
pub struct FieldValues {
    entries: Vec<(String, CxxString)>,
}

impl View for FieldValues {
    type V = Map<Seq<char>, Seq<u8>>;

    closed spec fn view(&self) -> Map<Seq<char>, Seq<u8>> {
        pairs_map(self.entries@)
    }
}

/// Whether two strings hold the same characters, compared by their bytes.
pub fn str_equal(a: &str, b: &str) -> (r: bool)
    ensures
        r == (a@ == b@),
{
    let x = a.as_bytes();
    let y = b.as_bytes();
    assert(x@ == encode_utf8(a@));
    assert(y@ == encode_utf8(b@));
    if x.len() != y.len() {
        return false;
    }
    let mut i: usize = 0;
    while i < x.len()
        invariant
            x@.len() == y@.len(),
            x@ == encode_utf8(a@),
            y@ == encode_utf8(b@),
            i <= x@.len(),
            forall|j: int| 0 <= j < i ==> x@[j] == y@[j],
        decreases x@.len() - i,
    {
        if x[i] != y[i] {
            proof {
                if a@ == b@ {
                    assert(x@ == y@);
                }
            }
            return false;
        }
        i = i + 1;
    }
    assert(x@ =~= y@);
    assert(decode_utf8(encode_utf8(a@)) == a@);
    assert(decode_utf8(encode_utf8(b@)) == b@);
    true
}

impl FieldValues {
    #[verifier::type_invariant]
    spec fn inv(&self) -> bool {
        unique_fields(self.entries@)
    }

    /// The entries, in insertion order.
    pub closed spec fn entries_spec(&self) -> Seq<(String, CxxString)> {
        self.entries@
    }

    /// The map is the one its entries build.
    pub proof fn lemma_view_is_pairs_map(&self)
        ensures
            self@ == pairs_map(self.entries_spec()),
    {
    }

    /// An empty map.
    pub fn new() -> (r: FieldValues)
        ensures
            r@ == Map::<Seq<char>, Seq<u8>>::empty(),
            r.entries_spec().len() == 0,
    {
        FieldValues { entries: Vec::new() }
    }

    /// The entries, in insertion order; each field appears once.
    pub fn entries(&self) -> (r: &Vec<(String, CxxString)>)
        ensures
            r@ == self.entries_spec(),
            unique_fields(r@),
            self@ == pairs_map(r@),
    {
        proof {
            use_type_invariant(self);
        }
        &self.entries
    }

    /// The number of fields.
    pub fn len(&self) -> (r: usize)
        ensures
            r == self.entries_spec().len(),
            r == self@.len(),
    {
        proof {
            use_type_invariant(self);
            self.lemma_len();
        }
        self.entries.len()
    }

    /// Whether the map holds no field.
    pub fn is_empty(&self) -> (r: bool)
        ensures
            r == (self@.len() == 0),
            r == (self@ == Map::<Seq<char>, Seq<u8>>::empty()),
    {
        proof {
            use_type_invariant(self);
            self.lemma_len();
            if self.entries@.len() > 0 {
                lemma_pairs_map_unique(self.entries@);
                assert(self@.contains_key(self.entries@[0].0@));
            }
        }
        self.entries.len() == 0
    }

    proof fn lemma_len(&self)
        requires
            unique_fields(self.entries@),
        ensures
            self@.len() == self.entries@.len(),
            self@.dom().finite(),
    {
        lemma_pairs_map_len(self.entries@);
    }

    /// Where `field` stands among the entries, if it does.
    fn position(&self, field: &str) -> (r: Option<usize>)
        ensures
            r matches Some(i) ==> i < self.entries@.len() && self.entries@[i as int].0@ == field@,
            r is None ==> forall|i: int| 0 <= i < self.entries@.len() ==> self.entries@[i].0@ != field@,
    {
        let mut i: usize = 0;
        while i < self.entries.len()
            invariant
                i <= self.entries@.len(),
                forall|j: int| 0 <= j < i ==> self.entries@[j].0@ != field@,
            decreases self.entries@.len() - i,
        {
            if str_equal(self.entries[i].0.as_str(), field) {
                return Some(i);
            }
            i = i + 1;
        }
        None
    }

    /// The value of `field`, if the map holds it.
    pub fn get(&self, field: &str) -> (r: Option<&CxxString>)
        ensures
            r is Some <==> self@.contains_key(field@),
            r matches Some(v) ==> v@ == self@[field@],
    {
        proof {
            use_type_invariant(self);
            lemma_pairs_map_unique(self.entries@);
        }
        match self.position(field) {
            Some(i) => {
                assert(self@.contains_key(self.entries@[i as int].0@));
                Some(&self.entries[i].1)
            },
            None => None,
        }
    }

    /// Sets `field` to `value`, replacing an earlier value of that field.
    pub fn insert(&mut self, field: String, value: CxxString)
        ensures
            final(self)@ == old(self)@.insert(field@, value@),
            forall|i: int|
                0 <= i < final(self).entries_spec().len() ==> (#[trigger] final(self).entries_spec()[i]).0@
                    == field@ || (i < old(self).entries_spec().len() && final(self).entries_spec()[i] == old(
                    self,
                ).entries_spec()[i]),
            final(self).entries_spec().len() == old(self).entries_spec().len() || final(self).entries_spec().len()
                == old(self).entries_spec().len() + 1,
            final(self).entries_spec().len() > 0,
    {
        proof {
            use_type_invariant(&*self);
        }
        let pos = self.position(field.as_str());
        let mut entries: Vec<(String, CxxString)> = Vec::new();
        core::mem::swap(&mut self.entries, &mut entries);
        let ghost s = entries@;
        match pos {
            Some(i) => {
                proof {
                    lemma_pairs_map_update(s, i as int, (field, value));
                }
                entries.set(i, (field, value));
            },
            None => {
                entries.push((field, value));
                proof {
                    assert(entries@.drop_last() =~= s);
                }
            },
        }
        self.entries = entries;
    }

    /// Builds the map by inserting the pairs in order.
    pub fn from_pairs(pairs: &Vec<(String, CxxString)>) -> (r: FieldValues)
        ensures
            r@ == pairs_map(pairs@),
    {
        let mut r = FieldValues::new();
        let mut i: usize = 0;
        while i < pairs.len()
            invariant
                i <= pairs@.len(),
                r@ == pairs_map(pairs@.subrange(0, i as int)),
            decreases pairs@.len() - i,
        {
            let field = pairs[i].0.clone();
            let value = pairs[i].1.clone();
            r.insert(field, value);
            proof {
                assert(pairs@.subrange(0, i + 1).drop_last() =~= pairs@.subrange(0, i as int));
            }
            i = i + 1;
        }
        assert(pairs@.subrange(0, pairs@.len() as int) =~= pairs@);
        r
    }

    /// Whether both maps hold the same fields with the same values.
    #[verifier::loop_isolation(false)]
    pub fn equals(&self, other: &FieldValues) -> (r: bool)
        ensures
            r == (self@ == other@),
    {
        proof {
            use_type_invariant(self);
            use_type_invariant(other);
            lemma_pairs_map_unique(self.entries@);
            lemma_pairs_map_unique(other.entries@);
            self.lemma_len();
            other.lemma_len();
        }
        if self.entries.len() != other.entries.len() {
            return false;
        }
        let mut i: usize = 0;
        while i < self.entries.len()
            invariant
                i <= self.entries@.len(),
                forall|j: int| 0 <= j < i ==> #[trigger] other@.contains_key(self.entries@[j].0@),
                forall|j: int| 0 <= j < i ==> #[trigger] other@[self.entries@[j].0@] == self.entries@[j].1@,
            decreases self.entries@.len() - i,
        {
            let field = self.entries[i].0.as_str();
            match other.get(field) {
                Some(v) => {
                    if !v.as_cxx_str().bytes_equal(self.entries[i].1.as_cxx_str()) {
                        return false;
                    }
                    assert(other@.contains_key(self.entries@[i as int].0@));
                    assert(other@[self.entries@[i as int].0@] == self.entries@[i as int].1@);
                },
                None => {
                    return false;
                },
            }
            i = i + 1;
        }
        proof {
            assert(self@.dom().subset_of(other@.dom()));
            if !(other@.dom() =~= self@.dom()) {
                let k = choose|k: Seq<char>| other@.dom().contains(k) && !self@.dom().contains(k);
                vstd::set_lib::lemma_len_subset(self@.dom(), other@.dom().remove(k));
            }
            assert(self@ =~= other@);
        }
        true
    }
}

proof fn lemma_pairs_map_len(s: Seq<(String, CxxString)>)
    requires
        unique_fields(s),
    ensures
        pairs_map(s).len() == s.len(),
        pairs_map(s).dom().finite(),
    decreases s.len(),
{
    if s.len() > 0 {
        let p = s.drop_last();
        assert(unique_fields(p));
        lemma_pairs_map_len(p);
        lemma_pairs_map_unique(p);
        assert(!pairs_map(p).contains_key(s.last().0@)) by {
            if pairs_map(p).contains_key(s.last().0@) {
                let i = choose|i: int| 0 <= i < p.len() && p[i].0@ == s.last().0@;
                assert(s[i] == p[i]);
            }
        }
    }
}

impl PartialEq for FieldValues {
    fn eq(&self, other: &FieldValues) -> (r: bool) {
        self.equals(other)
    }
}

impl vstd::std_specs::cmp::PartialEqSpecImpl for FieldValues {
    open spec fn obeys_eq_spec() -> bool {
        true
    }

    open spec fn eq_spec(&self, other: &FieldValues) -> bool {
        self@ == other@
    }
}

/// What a [`KeyOpFieldValues`] holds, as mathematical values.
pub struct KeyOpFieldValuesView {
    pub key: Seq<char>,
    pub operation: KeyOperation,
    pub field_values: Map<Seq<char>, Seq<u8>>,
}

/// A record: a key, an operation and, for a `Write`, the fields to write.
#[derive(Debug)]
pub struct KeyOpFieldValues {
    pub key: String,
    pub operation: KeyOperation,
    pub field_values: FieldValues,
}

impl View for KeyOpFieldValues {
    type V = KeyOpFieldValuesView;

    open spec fn view(&self) -> KeyOpFieldValuesView {
        KeyOpFieldValuesView { key: self.key@, operation: self.operation, field_values: self.field_values@ }
    }
}

impl KeyOpFieldValues {
    /// A record that writes the given fields under `key`.
    pub fn set(key: String, fvs: Vec<(String, CxxString)>) -> (r: KeyOpFieldValues)
        ensures
            r@ == (KeyOpFieldValuesView {
                key: key@,
                operation: KeyOperation::Write,
                field_values: pairs_map(fvs@),
            }),
    {
        KeyOpFieldValues { key, operation: KeyOperation::Write, field_values: FieldValues::from_pairs(&fvs) }
    }

    /// A record that deletes `key`.
    pub fn del(key: String) -> (r: KeyOpFieldValues)
        ensures
            r@ == (KeyOpFieldValuesView {
                key: key@,
                operation: KeyOperation::Del,
                field_values: Map::empty(),
            }),
    {
        KeyOpFieldValues { key, operation: KeyOperation::Del, field_values: FieldValues::new() }
    }

    /// Whether both records have the same key, operation and fields.
    pub fn equals(&self, other: &KeyOpFieldValues) -> (r: bool)
        ensures
            r == (self@ == other@),
    {
        str_equal(self.key.as_str(), other.key.as_str()) && self.operation == other.operation
            && self.field_values.equals(&other.field_values)
    }
}

impl PartialEq for KeyOpFieldValues {
    fn eq(&self, other: &KeyOpFieldValues) -> (r: bool) {
        self.equals(other)
    }
}

impl vstd::std_specs::cmp::PartialEqSpecImpl for KeyOpFieldValues {
    open spec fn obeys_eq_spec() -> bool {
        true
    }

    open spec fn eq_spec(&self, other: &KeyOpFieldValues) -> bool {
        self@ == other@
    }
}

} // verus!
