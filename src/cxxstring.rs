use crate::native::{NativeHeap, NativeString};
use vstd::prelude::*;
use vstd::utf8::*;

verus! {

#[verifier::external_type_specification]
#[verifier::external_body]
pub struct ExUtf8Error(core::str::Utf8Error);

/// What `String::from_utf8_lossy` makes of a byte sequence: each invalid
/// sequence is replaced by U+FFFD.
pub uninterp spec fn lossy_utf8(b: Seq<u8>) -> Seq<char>;

/// Relies on `std::str::from_utf8`: `Ok` exactly on valid UTF-8, holding the
/// decoded characters.
#[verifier::external_body]
pub(crate) fn str_from_utf8(b: &[u8]) -> (r: core::result::Result<&str, core::str::Utf8Error>)
    ensures
        r is Ok <==> valid_utf8(b@),
        r is Ok ==> r->Ok_0@ == decode_utf8(b@),
{
    core::str::from_utf8(b)
}

/// Relies on `String::from_utf8_lossy`: valid UTF-8 is decoded as it is.
#[verifier::external_body]
pub(crate) fn string_from_utf8_lossy(b: &[u8]) -> (r: String)
    ensures
        r@ == lossy_utf8(b@),
        valid_utf8(b@) ==> r@ == decode_utf8(b@),
{
    String::from_utf8_lossy(b).into_owned()
}

/// Read-only view of a natively owned byte string: any bytes, embedded NULs
/// included.
#[derive(Debug)]
pub struct CxxStr {
    bytes: Vec<u8>,
}

/// An owned byte string of the native string type.
#[derive(Debug)]
pub struct CxxString {
    inner: CxxStr,
}

impl View for CxxStr {
    type V = Seq<u8>;

    closed spec fn view(&self) -> Seq<u8> {
        self.bytes@
    }
}

impl View for CxxString {
    type V = Seq<u8>;

    closed spec fn view(&self) -> Seq<u8> {
        self.inner@
    }
}

impl CxxString {
    /// Copies the given bytes into a new string.
    pub fn new(data: &[u8]) -> (r: CxxString)
        ensures
            r@ == data@,
    {
        CxxString { inner: CxxStr { bytes: vstd::slice::slice_to_vec(data) } }
    }

    /// Takes ownership of bytes already held by the host.
    pub fn from_bytes(bytes: Vec<u8>) -> (r: CxxString)
        ensures
            r@ == bytes@,
    {
        CxxString { inner: CxxStr { bytes } }
    }

    /// Takes a string that a native call returned; a null result is `None`.
    /// The native string is released and its bytes move to the host.
    pub fn take(heap: &mut NativeHeap, s: Option<NativeString>) -> (r: Option<CxxString>)
        requires
            s matches Some(n) ==> old(heap).live_ids().contains(n.id),
        ensures
            r is Some <==> s is Some,
            r matches Some(c) ==> c@ == s->0.bytes@ && final(heap).live_ids() == old(heap).live_ids().remove(
                s->0.id,
            ),
            s is None ==> final(heap).live_ids() == old(heap).live_ids(),
    {
        match s {
            Some(n) => {
                heap.release(n.id);
                Some(CxxString::from_bytes(n.bytes))
            },
            None => None,
        }
    }

    /// Borrows the read-only view of this string.
    pub fn as_cxx_str(&self) -> (r: &CxxStr)
        ensures
            r@ == self@,
    {
        &self.inner
    }

    /// Length in bytes.
    pub fn len(&self) -> (r: usize)
        ensures
            r == self@.len(),
    {
        self.inner.len()
    }

    /// The underlying bytes.
    pub fn as_bytes(&self) -> (r: &[u8])
        ensures
            r@ == self@,
    {
        self.inner.as_bytes()
    }

    /// Gives up the string, handing back its bytes.
    pub fn into_bytes(self) -> (r: Vec<u8>)
        ensures
            r@ == self@,
    {
        self.inner.bytes
    }
}

impl Clone for CxxString {
    fn clone(&self) -> (r: Self)
        ensures
            r@ == self@,
    {
        CxxString::new(self.inner.bytes.as_slice())
    }
}

impl PartialEq for CxxString {
    fn eq(&self, other: &CxxString) -> (r: bool) {
        self.inner.bytes_equal(&other.inner)
    }
}

impl vstd::std_specs::cmp::PartialEqSpecImpl for CxxString {
    open spec fn obeys_eq_spec() -> bool {
        true
    }

    open spec fn eq_spec(&self, other: &CxxString) -> bool {
        self@ == other@
    }
}

impl CxxStr {
    /// Length of the string in bytes, without a terminator.
    pub fn len(&self) -> (r: usize)
        ensures
            r == self@.len(),
    {
        self.bytes.len()
    }

    /// Whether the string has no bytes.
    pub fn is_empty(&self) -> (r: bool)
        ensures
            r == (self@.len() == 0),
    {
        self.bytes.len() == 0
    }

    /// The underlying bytes, without a terminator.
    pub fn as_bytes(&self) -> (r: &[u8])
        ensures
            r@ == self@,
    {
        self.bytes.as_slice()
    }

    /// The text of the string, without copying, where it is valid UTF-8.
    pub fn to_str(&self) -> (r: core::result::Result<&str, core::str::Utf8Error>)
        ensures
            r is Ok <==> valid_utf8(self@),
            r is Ok ==> r->Ok_0@ == decode_utf8(self@),
    {
        str_from_utf8(self.bytes.as_slice())
    }

    /// The text of the string, with each invalid UTF-8 sequence replaced.
    pub fn to_string_lossy(&self) -> (r: String)
        ensures
            r@ == lossy_utf8(self@),
            valid_utf8(self@) ==> r@ == decode_utf8(self@),
    {
        string_from_utf8_lossy(self.bytes.as_slice())
    }

    /// Byte-wise equality.
    pub fn bytes_equal(&self, other: &CxxStr) -> (r: bool)
        ensures
            r == (self@ == other@),
    {
        if self.bytes.len() != other.bytes.len() {
            return false;
        }
        let mut i: usize = 0;
        while i < self.bytes.len()
            invariant
                self.bytes@.len() == other.bytes@.len(),
                i <= self.bytes@.len(),
                forall|j: int| 0 <= j < i ==> self.bytes@[j] == other.bytes@[j],
            decreases self.bytes@.len() - i,
        {
            if self.bytes[i] != other.bytes[i] {
                return false;
            }
            i = i + 1;
        }
        assert(self.bytes@ =~= other.bytes@);
        true
    }
}

} // verus!
