use vstd::prelude::*;

verus! {

/// The integer part of one conversion request to libsamplerate; the sample
/// data and the conversion ratio travel beside it.
pub struct ProcessRequest {
    /// Index of the first input sample in the Java input array.
    pub input_start: usize,
    pub input_frames: i64,
    /// Index of the first output sample in the Java output array.
    pub output_start: usize,
    pub output_frames: i64,
    pub end_of_input: i32,
}

/// Builds the request for `input_length` frames from `input_offset` of an
/// input array of `input_size` samples and room for `output_length` frames
/// from `output_offset` of an output array of `output_size` samples. Offsets
/// past an array's end are refused by the `requires`, as slicing the array
/// there panics.
pub fn process_request(
    input_offset: i32,
    input_length: i32,
    input_size: usize,
    output_offset: i32,
    output_length: i32,
    output_size: usize,
    eof: u8,
) -> (req: ProcessRequest)
    requires
        input_offset as usize <= input_size,
        output_offset as usize <= output_size,
    ensures
        req.input_start == input_offset as usize,
        req.input_frames == input_length as i64,
        req.output_start == output_offset as usize,
        req.output_frames == output_length as i64,
        req.end_of_input == eof as i32,
{
    ProcessRequest {
        input_start: input_offset as usize,
        input_frames: input_length as i64,
        output_start: output_offset as usize,
        output_frames: output_length as i64,
        end_of_input: eof as i32,
    }
}

/// The progress written back to Java: input frames used, then output frames
/// generated, each narrowed to an `i32`.
pub fn progress(input_frames_used: i64, output_frames_gen: i64) -> (p: [i32; 2])
    ensures
        p@ == seq![input_frames_used as i32, output_frames_gen as i32],
{
    [input_frames_used as i32, output_frames_gen as i32]
}

/// As long as libsamplerate uses no more input frames and makes no more
/// output frames than the request allowed, the progress reports both counts
/// exactly.
pub proof fn progress_is_exact(req: ProcessRequest, input_frames_used: i64, output_frames_gen: i64, input_length: i32, output_length: i32, p: Seq<i32>)
    requires
        req.input_frames == input_length as i64,
        req.output_frames == output_length as i64,
        0 <= input_frames_used <= req.input_frames,
        0 <= output_frames_gen <= req.output_frames,
        p == seq![input_frames_used as i32, output_frames_gen as i32],
    ensures
        p[0] == input_frames_used,
        p[1] == output_frames_gen,
        p[0] <= input_length,
        p[1] <= output_length,
{
}

} // verus!
