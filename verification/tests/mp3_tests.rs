use lavaplayer_natives::mp3::{creation, decode_precheck, decode_result, MPG123_OK, NO_INSTANCE};

#[test]
fn creation_keeps_handle_when_feed_opens() {
    let c = creation(0x5555_0000, MPG123_OK);
    assert_eq!(c.result, 0x5555_0000);
    assert!(!c.delete_handle);
}

#[test]
fn creation_deletes_handle_when_feed_fails() {
    let c = creation(0x5555_0000, -1);
    assert_eq!(c.result, 0);
    assert!(c.delete_handle);
    let c = creation(0x5555_0000, 7);
    assert_eq!(c.result, 0);
    assert!(c.delete_handle);
}

#[test]
fn decode_without_instance_reports_minus_one() {
    assert_eq!(decode_precheck(0), Some(NO_INSTANCE));
    assert_eq!(NO_INSTANCE, -1);
    assert_eq!(decode_precheck(42), None);
}

#[test]
fn decode_success_reports_bytes() {
    assert_eq!(decode_result(0, 4608), 4608);
    assert_eq!(decode_result(0, 0), 0);
}

#[test]
fn decode_negative_status_passes_through() {
    assert_eq!(decode_result(-10, 123), -10); // need more
    assert_eq!(decode_result(-11, 0), -11); // new format
    assert_eq!(decode_result(-12, 0), -12); // done
    assert_eq!(decode_result(-1, 0), -1);
}

#[test]
fn decode_positive_status_moves_below_minus_hundred() {
    assert_eq!(decode_result(1, 99), -101);
    assert_eq!(decode_result(42, 0), -142);
    assert_eq!(decode_result(i32::MAX, 0), -(i32::MAX as i64 + 100));
}

#[test]
fn decode_reports_of_failures_are_distinct() {
    let mut seen = Vec::new();
    for status in -100..=200 {
        if status == 0 {
            continue;
        }
        let report = decode_result(status, 1);
        assert!(report < 0);
        assert!(!seen.contains(&report));
        seen.push(report);
    }
}
