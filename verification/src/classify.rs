//! The error classifier: the one nontrivial rule of the gateway.
//!
//! A failure that carries a raw numeric error code is mapped through a
//! fixed, closed table to a symbolic tag; a code outside the table falls
//! back to the operating system's own message. A failure with no code at
//! all classifies as "not supported" when that is what its kind says, and
//! otherwise also falls back to the message. The raw codes in the table are
//! the platform's, taken from `rustix` exactly as the operating system
//! defines them.

use vstd::prelude::*;

use crate::errors::{Classification, ErrorTag, OsFailure};

verus! {

/// The platform's raw code for a value that is too large (`E2BIG`).
pub const CODE_E2BIG: i32 = 7;
/// The platform's raw code for denied access (`EACCES`).
pub const CODE_EACCES: i32 = 13;
/// The platform's raw code for an invalid argument (`EINVAL`).
pub const CODE_EINVAL: i32 = 22;
/// The platform's raw code for an input/output error (`EIO`).
pub const CODE_EIO: i32 = 5;
/// The platform's raw code for a missing attribute (`ENODATA`).
pub const CODE_ENODATA: i32 = 61;
/// The platform's raw code for a missing path (`ENOENT`).
pub const CODE_ENOENT: i32 = 2;
/// The platform's raw code for exhausted kernel memory (`ENOMEM`).
pub const CODE_ENOMEM: i32 = 12;
/// The platform's raw code for a full filesystem (`ENOSPC`).
pub const CODE_ENOSPC: i32 = 28;
/// The platform's raw code for a forbidden operation (`EPERM`).
pub const CODE_EPERM: i32 = 1;
/// The platform's raw code for a read-only filesystem (`EROFS`).
pub const CODE_EROFS: i32 = 30;
/// The platform's raw code for an unsupported operation (`EOPNOTSUPP`).
pub const CODE_ENOTSUP: i32 = 95;

/// Relies on rustix::io::Errno::TOOBIG and Errno::raw_os_error: the raw
/// code of E2BIG, which is 7 on this platform.
#[verifier::external_body]
fn os_code_e2big() -> (r: i32)
    ensures
        r == CODE_E2BIG,
{
    rustix::io::Errno::TOOBIG.raw_os_error()
}

/// Relies on rustix::io::Errno::ACCESS and Errno::raw_os_error: the raw
/// code of EACCES, which is 13 on this platform.
#[verifier::external_body]
fn os_code_eacces() -> (r: i32)
    ensures
        r == CODE_EACCES,
{
    rustix::io::Errno::ACCESS.raw_os_error()
}

/// Relies on rustix::io::Errno::INVAL and Errno::raw_os_error: the raw
/// code of EINVAL, which is 22 on this platform.
#[verifier::external_body]
fn os_code_einval() -> (r: i32)
    ensures
        r == CODE_EINVAL,
{
    rustix::io::Errno::INVAL.raw_os_error()
}

/// Relies on rustix::io::Errno::IO and Errno::raw_os_error: the raw code
/// of EIO, which is 5 on this platform.
#[verifier::external_body]
fn os_code_eio() -> (r: i32)
    ensures
        r == CODE_EIO,
{
    rustix::io::Errno::IO.raw_os_error()
}

/// Relies on rustix::io::Errno::NODATA and Errno::raw_os_error: the raw
/// code of ENODATA, which is 61 on this platform.
#[verifier::external_body]
fn os_code_enodata() -> (r: i32)
    ensures
        r == CODE_ENODATA,
{
    rustix::io::Errno::NODATA.raw_os_error()
}

/// Relies on rustix::io::Errno::NOENT and Errno::raw_os_error: the raw
/// code of ENOENT, which is 2 on this platform.
#[verifier::external_body]
fn os_code_enoent() -> (r: i32)
    ensures
        r == CODE_ENOENT,
{
    rustix::io::Errno::NOENT.raw_os_error()
}

/// Relies on rustix::io::Errno::NOMEM and Errno::raw_os_error: the raw
/// code of ENOMEM, which is 12 on this platform.
#[verifier::external_body]
fn os_code_enomem() -> (r: i32)
    ensures
        r == CODE_ENOMEM,
{
    rustix::io::Errno::NOMEM.raw_os_error()
}

/// Relies on rustix::io::Errno::NOSPC and Errno::raw_os_error: the raw
/// code of ENOSPC, which is 28 on this platform.
#[verifier::external_body]
fn os_code_enospc() -> (r: i32)
    ensures
        r == CODE_ENOSPC,
{
    rustix::io::Errno::NOSPC.raw_os_error()
}

/// Relies on rustix::io::Errno::PERM and Errno::raw_os_error: the raw code
/// of EPERM, which is 1 on this platform.
#[verifier::external_body]
fn os_code_eperm() -> (r: i32)
    ensures
        r == CODE_EPERM,
{
    rustix::io::Errno::PERM.raw_os_error()
}

/// Relies on rustix::io::Errno::ROFS and Errno::raw_os_error: the raw code
/// of EROFS, which is 30 on this platform.
#[verifier::external_body]
fn os_code_erofs() -> (r: i32)
    ensures
        r == CODE_EROFS,
{
    rustix::io::Errno::ROFS.raw_os_error()
}

/// Relies on rustix::io::Errno::NOTSUP and Errno::raw_os_error: the raw
/// code of EOPNOTSUPP, which is 95 on this platform.
#[verifier::external_body]
fn os_code_enotsup() -> (r: i32)
    ensures
        r == CODE_ENOTSUP,
{
    rustix::io::Errno::NOTSUP.raw_os_error()
}

/// The fixed table: the tag a raw numeric error code stands for, or `None`
/// for every code outside the closed vocabulary.
pub open spec fn recognized_tag(code: i32) -> Option<ErrorTag> {
    if code == CODE_E2BIG {
        Some(ErrorTag::E2big)
    } else if code == CODE_EACCES {
        Some(ErrorTag::Eacces)
    } else if code == CODE_EINVAL {
        Some(ErrorTag::Einval)
    } else if code == CODE_EIO {
        Some(ErrorTag::Eio)
    } else if code == CODE_ENODATA {
        Some(ErrorTag::Enodata)
    } else if code == CODE_ENOENT {
        Some(ErrorTag::Enoent)
    } else if code == CODE_ENOMEM {
        Some(ErrorTag::Enomem)
    } else if code == CODE_ENOSPC {
        Some(ErrorTag::Enospc)
    } else if code == CODE_EPERM {
        Some(ErrorTag::Eperm)
    } else if code == CODE_EROFS {
        Some(ErrorTag::Erofs)
    } else if code == CODE_ENOTSUP {
        Some(ErrorTag::Enotsup)
    } else {
        None
    }
}

/// What the classifier makes of a failure: the tag of a recognized code; a
/// codeless failure whose kind says "unsupported" classifies as `Enotsup`;
/// everything else falls back to the system's own message.
pub open spec fn spec_classify(f: OsFailure) -> Classification {
    match f.code {
        Some(code) => match recognized_tag(code) {
            Some(tag) => Classification::Tag(tag),
            None => Classification::Message(f.message),
        },
        None => if f.unsupported {
            Classification::Tag(ErrorTag::Enotsup)
        } else {
            Classification::Message(f.message)
        },
    }
}

/// Looks a raw numeric error code up in the fixed table, comparing it
/// against the platform's codes as `rustix` defines them.
pub fn classify_code(code: i32) -> (r: Option<ErrorTag>)
    ensures
        r == recognized_tag(code),
{
    if code == os_code_e2big() {
        Some(ErrorTag::E2big)
    } else if code == os_code_eacces() {
        Some(ErrorTag::Eacces)
    } else if code == os_code_einval() {
        Some(ErrorTag::Einval)
    } else if code == os_code_eio() {
        Some(ErrorTag::Eio)
    } else if code == os_code_enodata() {
        Some(ErrorTag::Enodata)
    } else if code == os_code_enoent() {
        Some(ErrorTag::Enoent)
    } else if code == os_code_enomem() {
        Some(ErrorTag::Enomem)
    } else if code == os_code_enospc() {
        Some(ErrorTag::Enospc)
    } else if code == os_code_eperm() {
        Some(ErrorTag::Eperm)
    } else if code == os_code_erofs() {
        Some(ErrorTag::Erofs)
    } else if code == os_code_enotsup() {
        Some(ErrorTag::Enotsup)
    } else {
        None
    }
}

/// Classifies a failed operating-system call: the symbolic tag of a
/// recognized raw code, `Enotsup` for a codeless failure of unsupported
/// kind, and the system's own message for everything else.
pub fn classify_failure(f: OsFailure) -> (r: Classification)
    ensures
        r == spec_classify(f),
{
    match f.code {
        Some(code) => match classify_code(code) {
            Some(tag) => Classification::Tag(tag),
            None => Classification::Message(f.message),
        },
        None => if f.unsupported {
            Classification::Tag(ErrorTag::Enotsup)
        } else {
            Classification::Message(f.message)
        },
    }
}

/// The classification law: every code of the fixed table yields exactly its
/// documented tag; a code outside the table, or a codeless failure that is
/// not of unsupported kind, falls back to the failure's own message; a
/// codeless failure of unsupported kind yields `Enotsup`.
pub proof fn lemma_classification_table(f: OsFailure)
    ensures
        f.code == Some(CODE_E2BIG) ==> spec_classify(f) == Classification::Tag(ErrorTag::E2big),
        f.code == Some(CODE_EACCES) ==> spec_classify(f) == Classification::Tag(ErrorTag::Eacces),
        f.code == Some(CODE_EINVAL) ==> spec_classify(f) == Classification::Tag(ErrorTag::Einval),
        f.code == Some(CODE_EIO) ==> spec_classify(f) == Classification::Tag(ErrorTag::Eio),
        f.code == Some(CODE_ENODATA) ==> spec_classify(f) == Classification::Tag(
            ErrorTag::Enodata,
        ),
        f.code == Some(CODE_ENOENT) ==> spec_classify(f) == Classification::Tag(ErrorTag::Enoent),
        f.code == Some(CODE_ENOMEM) ==> spec_classify(f) == Classification::Tag(ErrorTag::Enomem),
        f.code == Some(CODE_ENOSPC) ==> spec_classify(f) == Classification::Tag(ErrorTag::Enospc),
        f.code == Some(CODE_EPERM) ==> spec_classify(f) == Classification::Tag(ErrorTag::Eperm),
        f.code == Some(CODE_EROFS) ==> spec_classify(f) == Classification::Tag(ErrorTag::Erofs),
        f.code == Some(CODE_ENOTSUP) ==> spec_classify(f) == Classification::Tag(
            ErrorTag::Enotsup,
        ),
        (f.code matches Some(code) && recognized_tag(code) is None) ==> spec_classify(f)
            == Classification::Message(f.message),
        f.code is None && f.unsupported ==> spec_classify(f) == Classification::Tag(
            ErrorTag::Enotsup,
        ),
        f.code is None && !f.unsupported ==> spec_classify(f) == Classification::Message(f.message),
{
}

} // verus!
