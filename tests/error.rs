use ort::error::{assert_non_null_pointer, assert_null_pointer, Error, FetchModelError};

#[test]
fn null_pointer_check() {
    assert!(assert_null_pointer(0, "out").is_ok());
    match assert_null_pointer(0x20, "out") {
        Err(Error::PointerShouldBeNull(n)) => assert_eq!(n, "out"),
        other => panic!("unexpected outcome {:?}", other),
    }
}

#[test]
fn non_null_pointer_check() {
    assert!(assert_non_null_pointer(0x20, "session").is_ok());
    match assert_non_null_pointer(0, "session") {
        Err(Error::PointerShouldNotBeNull(n)) => assert_eq!(n, "session"),
        other => panic!("unexpected outcome {:?}", other),
    }
}

#[test]
fn download_failure_converts() {
    let e = Error::from(FetchModelError::CopyError { expected: 3, io: 2 });
    assert!(matches!(e, Error::DownloadError(FetchModelError::CopyError { expected: 3, io: 2 })));
}

#[test]
fn utf8_failure_converts() {
    let bad = String::from_utf8(vec![0xc3]).unwrap_err();
    assert!(matches!(Error::from(bad), Error::StringFromUtf8Error(_)));
}

#[test]
fn io_failure_converts() {
    let e = std::io::Error::new(std::io::ErrorKind::NotFound, "gone");
    assert!(matches!(FetchModelError::from(e), FetchModelError::IoError(_)));
}
