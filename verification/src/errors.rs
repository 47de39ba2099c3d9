//! The failure vocabulary of the gateway: a closed set of symbolic error
//! tags, and the classification that every operating-system failure is
//! reduced to (a tag, or a descriptive message for anything outside the
//! fixed table).

use vstd::prelude::*;

verus! {

/// The closed set of symbolic tags a caller can branch on without parsing
/// message text. Each tag stands for one recognized operating-system error
/// condition.
#[derive(Clone, Copy, Debug, PartialEq, Eq, Structural)]
pub enum ErrorTag {
    /// The attribute value was too large.
    E2big,
    /// Access to the file was denied.
    Eacces,
    /// An argument was invalid.
    Einval,
    /// A low-level input/output error occurred.
    Eio,
    /// The named attribute does not exist on the file.
    Enodata,
    /// The path does not exist.
    Enoent,
    /// The kernel ran out of memory.
    Enomem,
    /// The filesystem has no room for the attribute.
    Enospc,
    /// The operation was not permitted.
    Eperm,
    /// The filesystem is read-only.
    Erofs,
    /// Extended attributes are not supported here.
    Enotsup,
}

impl ErrorTag {
    /// The lower-case name of the tag, as a host runtime spells it.
    pub open spec fn spec_name(self) -> Seq<char> {
        match self {
            ErrorTag::E2big => "e2big"@,
            ErrorTag::Eacces => "eacces"@,
            ErrorTag::Einval => "einval"@,
            ErrorTag::Eio => "eio"@,
            ErrorTag::Enodata => "enodata"@,
            ErrorTag::Enoent => "enoent"@,
            ErrorTag::Enomem => "enomem"@,
            ErrorTag::Enospc => "enospc"@,
            ErrorTag::Eperm => "eperm"@,
            ErrorTag::Erofs => "erofs"@,
            ErrorTag::Enotsup => "enotsup"@,
        }
    }

    /// The tag's name as text, for handing across the host boundary.
    pub fn name(&self) -> (r: &'static str)
        ensures
            r@ == self.spec_name(),
    {
        match self {
            ErrorTag::E2big => "e2big",
            ErrorTag::Eacces => "eacces",
            ErrorTag::Einval => "einval",
            ErrorTag::Eio => "eio",
            ErrorTag::Enodata => "enodata",
            ErrorTag::Enoent => "enoent",
            ErrorTag::Enomem => "enomem",
            ErrorTag::Enospc => "enospc",
            ErrorTag::Eperm => "eperm",
            ErrorTag::Erofs => "erofs",
            ErrorTag::Enotsup => "enotsup",
        }
    }
}

/// What a failed operation reports to the caller: a symbolic tag from the
/// closed vocabulary, or an opaque descriptive message for the long tail of
/// conditions outside the fixed table.
#[derive(Clone, Debug, PartialEq, Eq)]
pub enum Classification {
    /// A recognized failure kind.
    Tag(ErrorTag),
    /// The catch-all: the operating system's own textual description.
    Message(String),
}

/// The failure signal an operating-system call hands back, reduced to plain
/// values: the raw numeric error code if the system supplied one, whether
/// the failure kind is "operation unsupported", and the system's own
/// textual description.
#[derive(Clone, Debug)]
pub struct OsFailure {
    /// The raw numeric error code, when the operating system supplied one.
    pub code: Option<i32>,
    /// Whether the failure, lacking a code, is known to mean "unsupported".
    pub unsupported: bool,
    /// The operating system's textual description of the failure.
    pub message: String,
}

} // verus!
