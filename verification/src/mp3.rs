use vstd::prelude::*;

verus! {

/// Status of `mpg123_open_feed` (and every mpg123 call) on success.
pub const MPG123_OK: i32 = 0;

/// What a decode call reports when it is given no decoder instance.
pub const NO_INSTANCE: i64 = -1;

/// Offset by which a positive mpg123 status is moved below the negative ones.
pub const POSITIVE_STATUS_OFFSET: i64 = 100;

/// What becomes of a freshly made mpg123 handle once the feed was opened on it.
pub struct Creation {
    /// The value handed back to Java: the handle, or 0 when the feed failed.
    pub result: i64,
    /// Whether the handle has to be deleted again.
    pub delete_handle: bool,
}

/// Decides the outcome of creating a decoder: a handle whose feed could not
/// be opened is deleted and 0 is reported, otherwise the handle is reported.
pub fn creation(handle: i64, open_feed_status: i32) -> (c: Creation)
    ensures
        open_feed_status != MPG123_OK ==> c.result == 0 && c.delete_handle,
        open_feed_status == MPG123_OK ==> c.result == handle && !c.delete_handle,
{
    if open_feed_status != MPG123_OK {
        Creation { result: 0, delete_handle: true }
    } else {
        Creation { result: handle, delete_handle: false }
    }
}

/// Whether a decode call can go ahead: with no instance (0) it reports
/// `NO_INSTANCE` at once, without touching the buffers.
pub fn decode_precheck(instance: i64) -> (early: Option<i64>)
    ensures
        early == (if instance == 0 { Some(NO_INSTANCE) } else { None::<i64> }),
{
    if instance == 0 {
        Some(NO_INSTANCE)
    } else {
        None
    }
}

/// The value a decode call hands back to Java for an mpg123 status and the
/// number of bytes the decoder wrote: the byte count on success, a negative
/// status as it is, and a positive status `s` as `-(s + 100)`.
pub open spec fn decode_report(status: i32, used_bytes: usize) -> i64 {
    if status != MPG123_OK {
        if status > 0 {
            (-(status + POSITIVE_STATUS_OFFSET)) as i64
        } else {
            status as i64
        }
    } else {
        used_bytes as i64
    }
}

/// Maps the result of `mpg123_decode` to the value handed back to Java.
pub fn decode_result(status: i32, used_bytes: usize) -> (report: i64)
    ensures
        report == decode_report(status, used_bytes),
{
    let result: i64 = status as i64;
    if result != 0 {
        if result > 0 {
            -(result + POSITIVE_STATUS_OFFSET)
        } else {
            result
        }
    } else {
        used_bytes as i64
    }
}

/// The mpg123 status that a reported value stands for, for reports of a
/// failed decode.
pub open spec fn status_of_report(report: i64) -> int {
    if report <= -(POSITIVE_STATUS_OFFSET + 1) {
        -report - POSITIVE_STATUS_OFFSET
    } else {
        report as int
    }
}

/// A successful decode reports the bytes written (as long as the count fits
/// in an `i64`), every other status a negative value, and a positive status
/// a value at or below -101.
pub proof fn decode_report_sign(status: i32, used_bytes: usize)
    ensures
        status == MPG123_OK && used_bytes <= i64::MAX ==> decode_report(status, used_bytes)
            == used_bytes && decode_report(status, used_bytes) >= 0,
        status != MPG123_OK ==> decode_report(status, used_bytes) < 0,
        status > 0 ==> decode_report(status, used_bytes) <= -(POSITIVE_STATUS_OFFSET + 1),
{
}

/// For every failure status that is not below -100 (mpg123's own codes are
/// all above that), the status can be read back from the report, so two
/// different such statuses are never reported alike.
pub proof fn decode_report_recovers_status(status: i32, used_bytes: usize)
    requires
        status != MPG123_OK,
        status >= -POSITIVE_STATUS_OFFSET,
    ensures
        status_of_report(decode_report(status, used_bytes)) == status,
{
}

/// Two failed decodes with different statuses, both at or above -100, are
/// reported differently.
pub proof fn decode_report_injective(s1: i32, u1: usize, s2: i32, u2: usize)
    requires
        s1 != MPG123_OK,
        s2 != MPG123_OK,
        s1 >= -POSITIVE_STATUS_OFFSET,
        s2 >= -POSITIVE_STATUS_OFFSET,
        decode_report(s1, u1) == decode_report(s2, u2),
    ensures
        s1 == s2,
{
    decode_report_recovers_status(s1, u1);
    decode_report_recovers_status(s2, u2);
}

} // verus!
