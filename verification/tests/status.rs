use webview2::status::{
    check_hresult, hresult_code, hresult_from_win32, make_hresult, succeeded, to_hresult, Error,
    IoErrorSource, E_FAIL, E_INVALIDARG, FACILITY_WIN32, SEVERITY_ERROR, S_OK, WIN32_FAILURE_BASE,
};

#[test]
fn status_constants_have_their_native_values() {
    assert_eq!(S_OK, 0);
    assert_eq!(E_FAIL as u32, 0x8000_4005);
    assert_eq!(E_INVALIDARG as u32, 0x8007_0057);
    assert_eq!(WIN32_FAILURE_BASE as u32, 0x8007_0000);
    assert_eq!(SEVERITY_ERROR, 1);
    assert_eq!(FACILITY_WIN32, 7);
}

#[test]
fn check_accepts_every_status_without_the_failure_bit() {
    assert_eq!(check_hresult(0), Ok(()));
    assert_eq!(check_hresult(1), Ok(()));
    assert_eq!(check_hresult(i32::MAX), Ok(()));
    assert!(succeeded(0));
    assert!(succeeded(0x0004_0000));
}

#[test]
fn check_wraps_a_failure_status_unchanged() {
    assert_eq!(check_hresult(-1), Err(Error::new(-1)));
    assert_eq!(check_hresult(E_FAIL), Err(Error::new(E_FAIL)));
    assert_eq!(check_hresult(i32::MIN), Err(Error::new(i32::MIN)));
    assert_eq!(check_hresult(E_INVALIDARG).unwrap_err().hresult(), E_INVALIDARG);
    assert!(!succeeded(-1));
    assert!(!succeeded(E_FAIL));
}

#[test]
fn check_agrees_with_the_failure_bit_on_many_statuses() {
    let samples: [i32; 9] = [0, 1, 2, 0x7FFF_FFFF, -1, -2, i32::MIN, E_FAIL, E_INVALIDARG];
    for status in samples {
        let failure_bit_set = (status as u32) & 0x8000_0000 != 0;
        match check_hresult(status) {
            Ok(()) => assert!(!failure_bit_set),
            Err(e) => {
                assert!(failure_bit_set);
                assert_eq!(e.hresult(), status);
            }
        }
    }
}

#[test]
fn result_becomes_the_status_that_it_stands_for() {
    assert_eq!(to_hresult(Ok::<(), Error>(())), S_OK);
    assert_eq!(to_hresult(Ok::<u32, Error>(17)), S_OK);
    assert_eq!(to_hresult(Err::<(), Error>(Error::new(E_FAIL))), E_FAIL);
    assert_eq!(to_hresult(Err::<String, Error>(Error::new(-7))), -7);
}

#[test]
fn checked_status_turned_back_keeps_failures() {
    assert_eq!(to_hresult(check_hresult(E_INVALIDARG)), E_INVALIDARG);
    assert_eq!(to_hresult(check_hresult(1)), S_OK);
}

#[test]
fn error_equality_is_status_equality() {
    assert_eq!(Error::new(5), Error::new(5));
    assert_ne!(Error::new(5), Error::new(6));
    assert_eq!(Error::new(E_FAIL).hresult(), E_FAIL);
}

#[test]
fn code_is_the_low_sixteen_bits() {
    assert_eq!(hresult_code(E_INVALIDARG), 0x57);
    assert_eq!(hresult_code(E_FAIL), 0x4005);
    assert_eq!(hresult_code(0), 0);
    assert_eq!(hresult_code(-1), 0xFFFF);
    assert_eq!(hresult_code(0x0001_0002), 2);
}

#[test]
fn status_is_assembled_from_its_fields() {
    assert_eq!(make_hresult(SEVERITY_ERROR, FACILITY_WIN32, 0), WIN32_FAILURE_BASE);
    assert_eq!(make_hresult(1, 7, 0x57), E_INVALIDARG);
    assert_eq!(make_hresult(0, 0, 0), S_OK);
    assert_eq!(make_hresult(0, 4, 1), 0x0004_0001);
}

#[test]
fn operating_system_code_becomes_a_status() {
    assert_eq!(hresult_from_win32(0), 0);
    assert_eq!(hresult_from_win32(5) as u32, 0x8007_0005);
    assert_eq!(hresult_from_win32(0xFFFF) as u32, 0x8007_FFFF);
    assert_eq!(hresult_from_win32(0x0001_0005) as u32, 0x8007_0005);
    assert_eq!(hresult_from_win32(0x8000_4005), E_FAIL);
    assert_eq!(hresult_from_win32(0xFFFF_FFFF), -1);
}

#[test]
fn error_from_raw_operating_system_code() {
    assert_eq!(Error::from_raw_os_error(Some(2)).hresult() as u32, 0x8007_0002);
    assert_eq!(Error::from_raw_os_error(Some(126)).hresult() as u32, 0x8007_007E);
    assert_eq!(Error::from_raw_os_error(Some(0)).hresult(), 0);
    assert_eq!(Error::from_raw_os_error(Some(-5)).hresult(), -5);
    assert_eq!(Error::from_raw_os_error(Some(0x12_0003)).hresult() as u32, 0x8007_0003);
    assert_eq!(Error::from_raw_os_error(None).hresult(), E_FAIL);
}

#[test]
fn operating_system_failure_gives_its_code_back() {
    assert_eq!(
        Error::new(0x8007_0005u32 as i32).into_io_error(),
        IoErrorSource::Os { code: 5 }
    );
    assert_eq!(Error::new(WIN32_FAILURE_BASE).into_io_error(), IoErrorSource::Os { code: 0 });
    assert_eq!(
        Error::new(0x8007_FFFFu32 as i32).into_io_error(),
        IoErrorSource::Os { code: 0xFFFF }
    );
}

#[test]
fn other_failure_stays_an_error_of_the_binding() {
    assert_eq!(
        Error::new(E_FAIL).into_io_error(),
        IoErrorSource::Other { error: Error::new(E_FAIL) }
    );
    assert_eq!(
        Error::new(0x0007_0005).into_io_error(),
        IoErrorSource::Other { error: Error::new(0x0007_0005) }
    );
    assert_eq!(
        Error::new(0x8008_0005u32 as i32).into_io_error(),
        IoErrorSource::Other { error: Error::new(0x8008_0005u32 as i32) }
    );
}

#[test]
fn operating_system_code_round_trips_through_an_error() {
    for code in [1, 2, 5, 126, 1000, 0xFFFF] {
        assert_eq!(
            Error::from_raw_os_error(Some(code)).into_io_error(),
            IoErrorSource::Os { code }
        );
    }
}

#[test]
fn error_text_shows_the_status_in_hexadecimal() {
    assert_eq!(Error::new(E_FAIL).to_string(), "webview2 error, HRESULT 0x80004005");
    assert_eq!(Error::new(E_INVALIDARG).to_string(), "webview2 error, HRESULT 0x80070057");
    assert_eq!(Error::new(0).to_string(), "webview2 error, HRESULT 0x0");
    assert_eq!(Error::new(0xAB).to_string(), "webview2 error, HRESULT 0xAB");
    assert_eq!(Error::new(-1).to_string(), "webview2 error, HRESULT 0xFFFFFFFF");
}

#[test]
fn error_text_agrees_with_the_standard_formatter() {
    for status in [0, 1, 9, 10, 15, 16, 255, 256, 0x1234_5678, -1, i32::MIN, i32::MAX, E_FAIL] {
        assert_eq!(
            Error::new(status).to_string(),
            format!("webview2 error, HRESULT {:#X}", status as u32)
        );
    }
}
