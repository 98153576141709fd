//! The error values that every operation of this crate reports.

use vstd::prelude::*;

verus! {

/// The class of a failure.
#[derive(Clone, Copy, Debug, PartialEq, Eq, Structural, Hash)]
pub enum ErrorKind {
    /// The candidate name is already taken by a filesystem entry.
    AlreadyExists,
    /// The candidate name is already taken by a bound socket address.
    AddrInUse,
    /// Every candidate name that was tried was already taken.
    Exhausted,
    /// The path, or one of its parents, does not resolve.
    NotFound,
    /// The caller lacks the rights for the operation.
    PermissionDenied,
    /// The medium has no room left.
    StorageFull,
    /// The file name is not acceptable to the platform, for instance too long.
    InvalidFilename,
    /// An argument is out of the operation's domain, such as a seek to a
    /// negative position.
    InvalidInput,
    /// The platform has no such concept, such as restrictive permissions
    /// where there is no permission model.
    Unsupported,
    /// Any other failure of the platform.
    Other,
}

/// A failure: its class and, where the platform gave one, the raw code of the
/// underlying cause, carried through untouched.
#[derive(Clone, Copy, Debug, PartialEq, Eq, Hash)]
pub struct Error {
    pub kind: ErrorKind,
    pub os_code: Option<i32>,
}

impl ErrorKind {
    /// Whether a failure of this class only says that the name is in use, so
    /// that another name may succeed.
    pub open spec fn spec_is_collision(self) -> bool {
        self == ErrorKind::AlreadyExists || self == ErrorKind::AddrInUse
    }

    /// Whether another name may succeed where this class of failure came.
    #[verifier::when_used_as_spec(spec_is_collision)]
    pub fn is_collision(self) -> (b: bool)
        ensures
            b == self.spec_is_collision(),
    {
        match self {
            ErrorKind::AlreadyExists => true,
            ErrorKind::AddrInUse => true,
            _ => false,
        }
    }
}

impl Error {
    /// A failure of class `kind` that this crate itself detected.
    pub fn new(kind: ErrorKind) -> (e: Error)
        ensures
            e == (Error { kind, os_code: None }),
    {
        Error { kind, os_code: None }
    }

    /// A failure of class `kind` that the platform reported with `code`.
    pub fn from_os(kind: ErrorKind, code: i32) -> (e: Error)
        ensures
            e == (Error { kind, os_code: Some(code) }),
    {
        Error { kind, os_code: Some(code) }
    }

    /// The failure that ends a creation when no unique name could be
    /// allocated.
    pub open spec fn spec_exhausted() -> Error {
        Error { kind: ErrorKind::Exhausted, os_code: None }
    }

    /// The failure of a creation that ran out of attempts.
    #[verifier::when_used_as_spec(spec_exhausted)]
    pub fn exhausted() -> (e: Error)
        ensures
            e == Error::spec_exhausted(),
    {
        Error { kind: ErrorKind::Exhausted, os_code: None }
    }

    /// The class of the failure.
    pub fn kind(&self) -> (k: ErrorKind)
        ensures
            k == self.kind,
    {
        self.kind
    }

    /// The platform's code of the underlying cause, if it gave one.
    pub fn os_code(&self) -> (c: Option<i32>)
        ensures
            c == self.os_code,
    {
        self.os_code
    }

    /// The failure is of a collision class.
    pub open spec fn spec_is_collision(&self) -> bool {
        self.kind.spec_is_collision()
    }

    /// Whether the creation engine answers this failure with another name.
    #[verifier::when_used_as_spec(spec_is_collision)]
    pub fn is_collision(&self) -> (b: bool)
        ensures
            b == self.spec_is_collision(),
    {
        self.kind.is_collision()
    }
}

/// A success without a value is the one success there is.
pub proof fn lemma_unit_outcome(outcome: Result<(), Error>)
    ensures
        outcome is Ok ==> outcome == Ok::<(), Error>(()),
{
    if outcome is Ok {
        assert(outcome == Ok::<(), Error>(outcome->Ok_0));
    }
}

} // verus!
