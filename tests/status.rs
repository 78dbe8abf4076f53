use ort::error::ErrorInternal;
use ort::status::{message_to_detail, OrtStatusWrapper, StatusAction};

#[test]
fn null_status_is_success_and_released() {
    let w = OrtStatusWrapper::from(0);
    assert_eq!(w.ptr(), 0);
    assert_eq!(w.next_action(), StatusAction::Release);
    assert!(matches!(w.released(), Ok(())));
}

#[test]
fn null_status_ignores_a_message() {
    let mut w = OrtStatusWrapper::from(0);
    w.message_read(b"unexpected".to_vec());
    assert_eq!(w.next_action(), StatusAction::Release);
    assert!(w.released().is_ok());
}

#[test]
fn message_status_yields_exact_detail() {
    let mut w = OrtStatusWrapper::from(0x1000);
    assert_eq!(w.ptr(), 0x1000);
    assert_eq!(w.next_action(), StatusAction::ReadMessage);
    w.message_read(b"invalid input shape".to_vec());
    assert_eq!(w.next_action(), StatusAction::Release);
    match w.released() {
        Err(ErrorInternal::Msg(m)) => assert_eq!(m, "invalid input shape"),
        other => panic!("unexpected outcome {:?}", other),
    }
}

#[test]
fn second_message_changes_nothing() {
    let mut w = OrtStatusWrapper::from(7);
    w.message_read(b"first".to_vec());
    w.message_read(b"second".to_vec());
    assert_eq!(w.next_action(), StatusAction::Release);
    match w.released() {
        Err(ErrorInternal::Msg(m)) => assert_eq!(m, "first"),
        other => panic!("unexpected outcome {:?}", other),
    }
}

#[test]
fn undecodable_message_yields_decoding_failure() {
    let mut w = OrtStatusWrapper::from(42);
    assert_eq!(w.next_action(), StatusAction::ReadMessage);
    w.message_read(vec![0x66, 0x6f, 0xff, 0xfe]);
    assert_eq!(w.next_action(), StatusAction::Release);
    match w.released() {
        Err(ErrorInternal::IntoStringError(e)) => assert_eq!(e.into_bytes(), vec![0x66, 0x6f, 0xff, 0xfe]),
        other => panic!("unexpected outcome {:?}", other),
    }
}

#[test]
fn message_decoding_keeps_multibyte_text() {
    match message_to_detail("größe ≠ 3".as_bytes().to_vec()) {
        ErrorInternal::Msg(m) => assert_eq!(m, "größe ≠ 3"),
        other => panic!("unexpected detail {:?}", other),
    }
}

#[test]
fn empty_message_decodes_to_empty_text() {
    match message_to_detail(Vec::new()) {
        ErrorInternal::Msg(m) => assert_eq!(m, ""),
        other => panic!("unexpected detail {:?}", other),
    }
}
