use ort::error::FetchModelError;
use ort::fetch::{after_copy, after_response, check_copy, declared_length, FetchStep};

#[test]
fn declared_length_reads_decimal() {
    assert!(matches!(declared_length(Some("2048")), Ok(2048)));
    assert!(matches!(declared_length(Some("+17")), Ok(17)));
    assert!(matches!(declared_length(Some("0")), Ok(0)));
    assert!(matches!(declared_length(Some("18446744073709551615")), Ok(18446744073709551615)));
}

#[test]
fn declared_length_rejects_missing_or_malformed() {
    assert!(matches!(declared_length(None), Err(FetchModelError::ContentLengthError)));
    assert!(matches!(declared_length(Some("")), Err(FetchModelError::ContentLengthError)));
    assert!(matches!(declared_length(Some("+")), Err(FetchModelError::ContentLengthError)));
    assert!(matches!(declared_length(Some("-5")), Err(FetchModelError::ContentLengthError)));
    assert!(matches!(declared_length(Some(" 12")), Err(FetchModelError::ContentLengthError)));
    assert!(matches!(declared_length(Some("12kb")), Err(FetchModelError::ContentLengthError)));
    assert!(matches!(
        declared_length(Some("18446744073709551616")),
        Err(FetchModelError::ContentLengthError)
    ));
}

#[test]
fn equal_counts_succeed() {
    assert!(check_copy(2048, 2048).is_ok());
    assert!(check_copy(0, 0).is_ok());
}

#[test]
fn unequal_counts_carry_both_values() {
    assert!(matches!(
        check_copy(2048, 1000),
        Err(FetchModelError::CopyError { expected: 2048, io: 1000 })
    ));
    assert!(matches!(
        check_copy(5, u64::MAX),
        Err(FetchModelError::CopyError { expected: 5, io: u64::MAX })
    ));
}

#[test]
fn missing_size_stops_before_copy() {
    assert!(matches!(after_response(Ok(None)), FetchStep::Fail(FetchModelError::ContentLengthError)));
    assert!(matches!(
        after_response(Ok(Some("many"))),
        FetchStep::Fail(FetchModelError::ContentLengthError)
    ));
}

#[test]
fn declared_size_leads_to_copy() {
    assert!(matches!(after_response(Ok(Some("2048"))), FetchStep::CopyBody { expected: 2048 }));
}

#[test]
fn complete_copy_succeeds() {
    assert!(after_copy(2048, Ok(2048)).is_ok());
}

#[test]
fn dropped_connection_is_size_mismatch() {
    assert!(matches!(
        after_copy(2048, Ok(1000)),
        Err(FetchModelError::CopyError { expected: 2048, io: 1000 })
    ));
}

#[test]
fn failed_copy_reports_io_error() {
    let e = std::io::Error::new(std::io::ErrorKind::ConnectionReset, "reset");
    match after_copy(2048, Err(e)) {
        Err(FetchModelError::IoError(e)) => assert_eq!(e.kind(), std::io::ErrorKind::ConnectionReset),
        other => panic!("unexpected outcome {:?}", other),
    }
}
