use warb::{BrawError, HResult};

#[test]
fn hresult_sign_classification() {
    assert!(HResult(0).is_ok());
    assert!(HResult(1).is_ok());
    assert!(HResult(i32::MAX).is_ok());
    assert!(HResult(-1).is_err());
    assert!(HResult(i32::MIN).is_err());
}

#[test]
fn hresult_s_ok_is_zero() {
    assert_eq!(HResult::s_ok(), HResult(0));
    assert!(HResult::s_ok().is_ok());
}

#[test]
fn hresult_display_format() {
    assert_eq!(HResult(0).to_string(), "HRESULT=0x00000000");
    // E_POINTER from COM: 0x80004003 (negative as i32).
    assert_eq!(
        HResult(0x8000_4003u32 as i32).to_string(),
        "HRESULT=0x80004003"
    );
}

#[test]
fn braw_error_display_passes_through() {
    let e = BrawError::new("boom");
    assert_eq!(e.to_string(), "boom");
}

#[test]
fn hresult_ok_and_err_are_exclusive() {
    for code in [i32::MIN, -2, -1, 0, 1, 2, i32::MAX] {
        let h = HResult(code);
        assert_ne!(h.is_ok(), h.is_err());
    }
}

#[test]
fn hresult_display_covers_every_digit() {
    assert_eq!(HResult(0x0123_4567).to_string(), "HRESULT=0x01234567");
    assert_eq!(HResult(0x89ab_cdefu32 as i32).to_string(), "HRESULT=0x89abcdef");
    assert_eq!(HResult(-1).to_string(), "HRESULT=0xffffffff");
    assert_eq!(HResult(i32::MIN).to_string(), "HRESULT=0x80000000");
    assert_eq!(HResult(i32::MAX).to_string(), "HRESULT=0x7fffffff");
    assert_eq!(HResult(10).to_string(), "HRESULT=0x0000000a");
}

#[test]
fn braw_error_from_message_keeps_text() {
    let e = BrawError::from_message(String::from("read failed"));
    assert_eq!(e.to_string(), "read failed");
    assert_eq!(BrawError::new("").to_string(), "");
}
