use lavaplayer_natives::opus::{creation_result, encoder_setup, OPUS_OK, OPUS_SET_COMPLEXITY_REQUEST};

#[test]
fn created_decoder_reports_handle() {
    assert_eq!(creation_result(OPUS_OK, 0x7f00_1234), 0x7f00_1234);
}

#[test]
fn failed_decoder_reports_code() {
    assert_eq!(creation_result(-1, 0), -1);
    assert_eq!(creation_result(-7, 0), -7);
}

#[test]
fn handle_wins_over_error_code() {
    assert_eq!(creation_result(-3, 0x1000), 0x1000);
}

#[test]
fn ok_without_handle_reports_zero() {
    assert_eq!(creation_result(OPUS_OK, 0), 0);
}

#[test]
fn created_encoder_gets_complexity() {
    let setup = encoder_setup(OPUS_OK, 0x2000, 10);
    assert_eq!(setup.report, 0x2000);
    assert_eq!(setup.control, Some((OPUS_SET_COMPLEXITY_REQUEST, 10)));
    assert_eq!(OPUS_SET_COMPLEXITY_REQUEST, 4010);
}

#[test]
fn failed_encoder_gets_no_control() {
    let setup = encoder_setup(-1, 0, 10);
    assert_eq!(setup.report, -1);
    assert_eq!(setup.control, None);
}
