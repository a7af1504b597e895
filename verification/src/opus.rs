use vstd::prelude::*;

verus! {

/// `OPUS_OK` of the Opus API: no error.
pub const OPUS_OK: i32 = 0;

/// `OPUS_SET_COMPLEXITY_REQUEST` of the Opus API: the encoder control request
/// that sets the computational complexity.
pub const OPUS_SET_COMPLEXITY_REQUEST: i32 = 4010;

/// A decoder or encoder counts as made when Opus reported no error or handed
/// back a non-null state.
pub open spec fn created(code: i32, handle: i64) -> bool {
    code == OPUS_OK || handle != 0
}

/// The value handed back to Java after creating a decoder or an encoder: the
/// state's address when it was made, the Opus error code otherwise.
pub open spec fn creation_report(code: i32, handle: i64) -> i64 {
    if created(code, handle) {
        handle
    } else {
        code as i64
    }
}

/// Decides what creating a decoder reports.
pub fn creation_result(code: i32, handle: i64) -> (report: i64)
    ensures
        report == creation_report(code, handle),
{
    if code == OPUS_OK || handle != 0 {
        handle
    } else {
        code as i64
    }
}

/// What follows the creation of an encoder: the control request to send to
/// it, if any, and the value handed back to Java.
pub struct EncoderSetup {
    /// `(request, value)` for `opus_encoder_ctl`.
    pub control: Option<(i32, i32)>,
    pub report: i64,
}

/// Decides what follows the creation of an encoder: a made encoder gets its
/// complexity set to `quality` and is reported; otherwise the error code is
/// reported and nothing is sent.
pub fn encoder_setup(code: i32, handle: i64, quality: i32) -> (setup: EncoderSetup)
    ensures
        setup.report == creation_report(code, handle),
        setup.control == (if created(code, handle) {
            Some((OPUS_SET_COMPLEXITY_REQUEST, quality))
        } else {
            None::<(i32, i32)>
        }),
{
    let report: i64 = creation_result(code, handle);
    if code == OPUS_OK || handle != 0 {
        EncoderSetup { control: Some((OPUS_SET_COMPLEXITY_REQUEST, quality)), report }
    } else {
        EncoderSetup { control: None, report }
    }
}

/// A creation that failed reports Opus's error code, which is never
/// `OPUS_OK`, and so never a zero address; a report of 0 can only come from a
/// creation that Opus called successful yet that handed back no state.
pub proof fn failed_creation_reports_error(code: i32, handle: i64)
    ensures
        !created(code, handle) ==> creation_report(code, handle) == code && code != OPUS_OK
            && handle == 0,
        creation_report(code, handle) == 0 ==> code == OPUS_OK && handle == 0,
        created(code, handle) ==> creation_report(code, handle) == handle,
{
}

} // verus!
