//! The fixed code-to-tag table, exercised with the platform's real raw
//! codes as `rustix` reports them, and the two codeless branches of the
//! classifier.

use ex_attr::classify::{
    classify_code, classify_failure, CODE_E2BIG, CODE_EACCES, CODE_EINVAL, CODE_EIO, CODE_ENODATA,
    CODE_ENOENT, CODE_ENOMEM, CODE_ENOSPC, CODE_ENOTSUP, CODE_EPERM, CODE_EROFS,
};
use ex_attr::errors::{Classification, ErrorTag, OsFailure};
use rustix::io::Errno;

fn coded(code: i32) -> OsFailure {
    OsFailure { code: Some(code), unsupported: false, message: format!("os error {}", code) }
}

#[test]
fn every_table_code_yields_its_tag() {
    let table = [
        (Errno::TOOBIG, ErrorTag::E2big),
        (Errno::ACCESS, ErrorTag::Eacces),
        (Errno::INVAL, ErrorTag::Einval),
        (Errno::IO, ErrorTag::Eio),
        (Errno::NODATA, ErrorTag::Enodata),
        (Errno::NOENT, ErrorTag::Enoent),
        (Errno::NOMEM, ErrorTag::Enomem),
        (Errno::NOSPC, ErrorTag::Enospc),
        (Errno::PERM, ErrorTag::Eperm),
        (Errno::ROFS, ErrorTag::Erofs),
        (Errno::NOTSUP, ErrorTag::Enotsup),
    ];
    for (errno, tag) in table {
        let raw = errno.raw_os_error();
        assert_eq!(classify_code(raw), Some(tag));
        assert_eq!(classify_failure(coded(raw)), Classification::Tag(tag));
    }
}

#[test]
fn table_constants_match_the_platform() {
    assert_eq!(CODE_E2BIG, Errno::TOOBIG.raw_os_error());
    assert_eq!(CODE_EACCES, Errno::ACCESS.raw_os_error());
    assert_eq!(CODE_EINVAL, Errno::INVAL.raw_os_error());
    assert_eq!(CODE_EIO, Errno::IO.raw_os_error());
    assert_eq!(CODE_ENODATA, Errno::NODATA.raw_os_error());
    assert_eq!(CODE_ENOENT, Errno::NOENT.raw_os_error());
    assert_eq!(CODE_ENOMEM, Errno::NOMEM.raw_os_error());
    assert_eq!(CODE_ENOSPC, Errno::NOSPC.raw_os_error());
    assert_eq!(CODE_EPERM, Errno::PERM.raw_os_error());
    assert_eq!(CODE_EROFS, Errno::ROFS.raw_os_error());
    assert_eq!(CODE_ENOTSUP, Errno::NOTSUP.raw_os_error());
}

#[test]
fn code_outside_the_table_falls_back_to_the_message() {
    // ECHILD is a real code that the table does not recognize.
    let raw = Errno::CHILD.raw_os_error();
    assert_eq!(classify_code(raw), None);
    assert_eq!(
        classify_failure(coded(raw)),
        Classification::Message(format!("os error {}", raw))
    );
    // An arbitrary value far outside any errno range must not crash either.
    assert_eq!(classify_code(999_999), None);
    assert_eq!(
        classify_failure(coded(999_999)),
        Classification::Message("os error 999999".to_string())
    );
    assert_eq!(classify_code(-1), None);
    assert_eq!(classify_code(0), None);
}

#[test]
fn codeless_unsupported_classifies_as_enotsup() {
    let f = OsFailure {
        code: None,
        unsupported: true,
        message: "operation not supported on this platform".to_string(),
    };
    assert_eq!(classify_failure(f), Classification::Tag(ErrorTag::Enotsup));
}

#[test]
fn codeless_other_failure_falls_back_to_the_message() {
    let f = OsFailure {
        code: None,
        unsupported: false,
        message: "something strange happened".to_string(),
    };
    assert_eq!(
        classify_failure(f),
        Classification::Message("something strange happened".to_string())
    );
}

#[test]
fn a_code_wins_over_the_unsupported_kind() {
    // When a raw code is present, the table decides, whatever the kind says.
    let f = OsFailure {
        code: Some(Errno::ACCESS.raw_os_error()),
        unsupported: true,
        message: "denied".to_string(),
    };
    assert_eq!(classify_failure(f), Classification::Tag(ErrorTag::Eacces));
}

#[test]
fn tag_names_spell_the_vocabulary() {
    assert_eq!(ErrorTag::E2big.name(), "e2big");
    assert_eq!(ErrorTag::Eacces.name(), "eacces");
    assert_eq!(ErrorTag::Einval.name(), "einval");
    assert_eq!(ErrorTag::Eio.name(), "eio");
    assert_eq!(ErrorTag::Enodata.name(), "enodata");
    assert_eq!(ErrorTag::Enoent.name(), "enoent");
    assert_eq!(ErrorTag::Enomem.name(), "enomem");
    assert_eq!(ErrorTag::Enospc.name(), "enospc");
    assert_eq!(ErrorTag::Eperm.name(), "eperm");
    assert_eq!(ErrorTag::Erofs.name(), "erofs");
    assert_eq!(ErrorTag::Enotsup.name(), "enotsup");
}
