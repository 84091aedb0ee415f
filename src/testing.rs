use crate::cxxstring::CxxString;
use crate::keepalive::{has_nul, pair_error_fn, record_encode_error};
use crate::marshal::lemma_first_error_none;
use crate::numeral::{hex_digit, hex_string, hex_upper};
use crate::record::{FieldValues, KeyOpFieldValues, KeyOperation};
use vstd::prelude::*;
use vstd::string::*;
use vstd::utf8::*;

verus! {

/// Whether `s` is the numeral of some 64-bit number.
pub open spec fn is_u64_numeral(s: Seq<char>) -> bool {
    exists|n: u64| s == hex_upper(n as nat)
}

/// Whether a record's fields fit its operation: a `Write` carries at least
/// one field, a `Del` none.
pub open spec fn fields_fit_operation(r: KeyOpFieldValues) -> bool {
    if r.operation == KeyOperation::Write {
        r.field_values@.len() > 0
    } else {
        r.field_values@.len() == 0
    }
}

/// The numerals of 64-bit numbers are ASCII and hold no NUL byte.
pub proof fn lemma_hex_upper_has_no_nul(n: nat)
    ensures
        forall|i: int| 0 <= i < hex_upper(n).len() ==> '0' <= #[trigger] hex_upper(n)[i] <= 'F',
        is_ascii_chars(hex_upper(n)),
        !has_nul(hex_upper(n)),
        hex_upper(n).len() > 0,
    decreases n,
{
    let s = hex_upper(n);
    let digits = seq!['0', '1', '2', '3', '4', '5', '6', '7', '8', '9', 'A', 'B', 'C', 'D', 'E', 'F'];
    assert forall|i: int| 0 <= i < digits.len() implies '0' <= #[trigger] digits[i] <= 'F' by {}
    if n >= 16 {
        lemma_hex_upper_has_no_nul(n / 16);
        assert(s.last() == digits[(n % 16) as int]);
    } else {
        assert(s[0] == digits[n as int]);
    }
    assert forall|i: int| 0 <= i < s.len() implies '0' <= #[trigger] s[i] <= 'F' by {
        if n >= 16 && i < s.len() - 1 {
            assert(s[i] == hex_upper(n / 16)[i]);
        }
    }
    is_ascii_chars_encode_utf8(s);
    assert(!encode_utf8(s).contains(0u8)) by {
        if encode_utf8(s).contains(0u8) {
            let j = choose|j: int| 0 <= j < encode_utf8(s).len() && encode_utf8(s)[j] == 0u8;
            assert(s[j] as u8 == 0u8);
            assert('0' <= s[j] <= 'F');
        }
    }
}

/// Relies on `rand::random`: a value drawn from the thread's generator.
/// Nothing is known of which one.
pub assume_specification<T>[ rand::random::<T> ]() -> (r: T)
    where
        rand::distributions::Standard: rand::distributions::Distribution<T>,
;

/// Relies on `rand::Rng::gen_range` over `low..high` on the thread's
/// generator: a value at least `low` and below `high`. An empty range
/// panics, so `low < high`.
#[verifier::external_body]
fn random_below(low: u64, high: u64) -> (r: u64)
    requires
        low < high,
    ensures
        low <= r < high,
{
    rand::Rng::gen_range(&mut rand::thread_rng(), low..high)
}

/// A random string: the upper-case hexadecimal numeral of a random 64-bit
/// number.
pub fn random_string() -> (r: String)
    ensures
        is_u64_numeral(r@),
        !has_nul(r@),
        r@.len() > 0,
{
    let n: u64 = rand::random::<u64>();
    let r = hex_string(n);
    proof {
        lemma_hex_upper_has_no_nul(n as nat);
    }
    r
}

/// A random value string: the bytes of a [`random_string`].
pub fn random_cxx_string() -> (r: CxxString)
    ensures
        exists|n: u64| r@ == encode_utf8(#[trigger] hex_upper(n as nat)),
{
    let s = random_string();
    let r = CxxString::new(s.as_str().as_bytes());
    proof {
        let n = choose|n: u64| s@ == hex_upper(n as nat);
        assert(r@ == encode_utf8(hex_upper(n as nat)));
    }
    r
}

/// Random fields: between 100 and 999 insertions of random fields and
/// values (equal random fields collapse into one).
pub fn random_fvs() -> (r: FieldValues)
    ensures
        0 < r@.len() < 1000,
        r.entries_spec().len() == r@.len(),
        forall|i: int| 0 <= i < r.entries_spec().len() ==> !has_nul(#[trigger] r.entries_spec()[i].0@),
{
    let count = random_below(100, 1000);
    let mut field_values = FieldValues::new();
    let mut i: u64 = 0;
    while i < count
        invariant
            100 <= count < 1000,
            i <= count,
            field_values.entries_spec().len() <= i,
            i > 0 ==> field_values.entries_spec().len() > 0,
            field_values.entries_spec().len() == field_values@.len(),
            forall|j: int|
                0 <= j < field_values.entries_spec().len() ==> !has_nul(
                    #[trigger] field_values.entries_spec()[j].0@,
                ),
        decreases count - i,
    {
        let field = random_string();
        let value = random_cxx_string();
        field_values.insert(field, value);
        let _ = field_values.len();
        i = i + 1;
    }
    let _ = field_values.len();
    field_values
}

/// A random record: a `Write` of [`random_fvs`] or a `Del`, under a random
/// key. A `Write` always carries fields, since the native wire format reads
/// a `Write` without fields as a delete.
pub fn random_kfv() -> (r: KeyOpFieldValues)
    ensures
        fields_fit_operation(r),
        record_encode_error(r) is None,
{
    let key = random_string();
    let write: bool = rand::random::<bool>();
    let operation = if write {
        KeyOperation::Write
    } else {
        KeyOperation::Del
    };
    let field_values = if write {
        random_fvs()
    } else {
        FieldValues::new()
    };
    let _ = field_values.len();
    proof {
        lemma_first_error_none(field_values.entries_spec(), pair_error_fn());
    }
    KeyOpFieldValues { key, operation, field_values }
}

/// A hundred random records.
pub fn random_kfvs() -> (r: Vec<KeyOpFieldValues>)
    ensures
        r@.len() == 100,
        forall|i: int| 0 <= i < r@.len() ==> fields_fit_operation(#[trigger] r@[i]) && record_encode_error(
            r@[i],
        ) is None,
{
    let mut r: Vec<KeyOpFieldValues> = Vec::new();
    let mut i: usize = 0;
    while i < 100
        invariant
            i <= 100,
            r@.len() == i,
            forall|j: int| 0 <= j < r@.len() ==> fields_fit_operation(#[trigger] r@[j]) && record_encode_error(
                r@[j],
            ) is None,
        decreases 100 - i,
    {
        r.push(random_kfv());
        i = i + 1;
    }
    r
}

/// A random unix socket path under `/tmp`.
pub fn random_unix_sock() -> (r: String)
    ensures
        exists|s: Seq<char>| is_u64_numeral(s) && r@ == "/tmp/swss-common-testing-"@ + s + ".sock"@,
{
    let s = random_string();
    let mut r = "/tmp/swss-common-testing-".to_owned();
    r.append(s.as_str());
    r.append(".sock");
    assert(r@ == "/tmp/swss-common-testing-"@ + s@ + ".sock"@);
    r
}

/// A random port, at least 1000 and below 65535.
pub fn random_port() -> (r: u16)
    ensures
        1000 <= r < 65535,
{
    random_below(1000, 65535) as u16
}

} // verus!
