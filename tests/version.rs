use pstoedit::{pstoedit_result, Error, PSTOEDIT_DLL_VERSION};

#[test]
fn dll_version() {
    assert_eq!(PSTOEDIT_DLL_VERSION, 301);
}

#[test]
fn init() {
    // pstoedit's version check answers non-zero for a compatible library.
    assert!(pstoedit::init(1).is_ok());
}

#[test]
fn test_init() {
    pstoedit::init(1).unwrap();
}

#[test]
fn init_incompatible() {
    assert!(matches!(pstoedit::init(0), Err(Error::IncompatibleVersion)));
    assert!(pstoedit::init(-7).is_ok());
}

#[test]
fn status_success() {
    assert!(pstoedit_result(0).is_ok());
}

#[test]
fn status_not_initialized() {
    assert!(matches!(pstoedit_result(-1), Err(Error::NotInitialized)));
}

#[test]
fn status_conversion_failed() {
    assert!(matches!(pstoedit_result(1), Err(Error::PstoeditError(1))));
    assert!(matches!(pstoedit_result(-2), Err(Error::PstoeditError(-2))));
    assert!(matches!(pstoedit_result(i32::MAX), Err(Error::PstoeditError(i32::MAX))));
}
