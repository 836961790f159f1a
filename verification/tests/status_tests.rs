use pjproject::errno::PJ_EINVAL;
use pjproject::error::Error;
use pjproject::status::{PjStatus, PJ_SUCCESS};

#[test]
fn result_for_status_success_is_ok() {
    assert!(PjStatus::result_for_status(PJ_SUCCESS).is_ok());
}

#[test]
fn result_for_status_failure_carries_status() {
    match PjStatus::result_for_status(PJ_EINVAL) {
        Err(Error::PjError(s)) => assert_eq!(s.0, 70004),
        _ => panic!("expected a pjlib error"),
    }
}

#[test]
fn is_success_and_is_err_are_opposites() {
    let ok = PjStatus::new(0);
    let bad = PjStatus::new(-1);
    assert!(ok.is_success());
    assert!(!ok.is_err());
    assert!(!bad.is_success());
    assert!(bad.is_err());
}

#[test]
fn as_result_agrees_with_result_for_status() {
    assert!(PjStatus::new(0).as_result().is_ok());
    match PjStatus::new(70016).as_result() {
        Err(Error::PjError(s)) => assert_eq!(s.0, 70016),
        _ => panic!("expected a pjlib error"),
    }
}

#[test]
fn status_text_shows_message_and_number() {
    assert_eq!(
        pjproject::status::status_text("Invalid argument", 70004),
        "msg: Invalid argument [status=70004]"
    );
    assert_eq!(pjproject::status::status_text("", -1), "msg:  [status=-1]");
}
