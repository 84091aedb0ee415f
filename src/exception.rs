use vstd::prelude::*;
use vstd::string::*;

verus! {

/// The four families of failure that a call of this library can report.
#[derive(Debug, Clone, Copy, PartialEq, Eq, Structural)]
pub enum ExceptionKind {
    /// The native library reported a non-success status.
    Native,
    /// A host string could not be represented natively, or a native string
    /// could not be decoded as text.
    Encoding,
    /// A host collection is longer than a native length field can hold.
    Capacity,
    /// A caller broke a logical precondition of the data model.
    Invariant,
}

/// What an [`Exception`] holds, as mathematical values.
pub struct ExceptionView {
    pub kind: ExceptionKind,
    pub message: Seq<char>,
    pub location: Seq<char>,
}

/// An immutable error value: a kind, a human-readable message and the place
/// that raised it.
#[derive(Debug)]
pub struct Exception {
    kind: ExceptionKind,
    message: String,
    location: String,
}

/// Every fallible operation of this library returns either a value or an
/// [`Exception`].
pub type Result<T, E = Exception> = core::result::Result<T, E>;

impl View for Exception {
    type V = ExceptionView;

    closed spec fn view(&self) -> ExceptionView {
        ExceptionView { kind: self.kind, message: self.message@, location: self.location@ }
    }
}

impl Clone for Exception {
    /// A copy with the same kind, message and location.
    fn clone(&self) -> (r: Exception)
        ensures
            r@ == self@,
    {
        Exception { kind: self.kind, message: self.message.clone(), location: self.location.clone() }
    }
}

impl Exception {
    /// Builds an exception from its parts.
    pub fn new(kind: ExceptionKind, message: String, location: String) -> (r: Exception)
        ensures
            r@ == (ExceptionView { kind, message: message@, location: location@ }),
    {
        Exception { kind, message, location }
    }

    /// The family this failure belongs to.
    pub fn kind(&self) -> (r: ExceptionKind)
        ensures
            r == self@.kind,
    {
        self.kind
    }

    /// An informational string about the error that occurred.
    pub fn message(&self) -> (r: &str)
        ensures
            r@ == self@.message,
    {
        self.message.as_str()
    }

    /// Where the error was raised.
    pub fn location(&self) -> (r: &str)
        ensures
            r@ == self@.location,
    {
        self.location.as_str()
    }

    /// The human-readable form `[{location}] {message}`.
    pub fn to_string(&self) -> (r: String)
        ensures
            r@ == seq!['['] + self@.location + seq![']', ' '] + self@.message,
    {
        let mut r = "[".to_owned();
        r.append(self.location.as_str());
        r.append("] ");
        r.append(self.message.as_str());
        proof {
            reveal_strlit("[");
            reveal_strlit("] ");
        }
        r
    }
}

} // verus!
