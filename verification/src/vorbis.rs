use vstd::prelude::*;

verus! {

/// Bit set on the error code of a header packet that libvorbis refused, so
/// that Java can tell it apart from the other outcomes of initialisation.
pub const HEADER_ERROR_FLAG: i32 = 0x0100_0000;

/// What initialisation reports when the synthesis state could not be set up.
pub const SYNTHESIS_FAILED: i32 = 0;

/// What initialisation reports when the decoder is ready.
pub const READY: i32 = 1;

/// What an output call reports when writing to the Java arrays raised an
/// exception.
pub const OUTPUT_FAILED: i32 = -1;

/// The packets a decoder is given: the two header packets of
/// initialisation, then audio packets.
#[derive(PartialEq, Eq, Structural, Clone, Copy, Debug)]
pub enum PacketKind {
    IdentificationHeader,
    SetupHeader,
    Audio,
}

/// Whether a packet is marked as the beginning of the stream: only the
/// identification header is.
pub fn begins_stream(kind: PacketKind) -> (b: bool)
    ensures
        b == (kind == PacketKind::IdentificationHeader),
{
    match kind {
        PacketKind::IdentificationHeader => true,
        _ => false,
    }
}

/// The fields of an Ogg packet built over part of a Java buffer.
pub struct PacketFields {
    /// Index in the buffer where the packet's data starts.
    pub start: usize,
    pub bytes: i64,
    /// 1 for the first packet of a stream, 0 otherwise.
    pub b_o_s: i64,
    pub packetno: i64,
    pub granulepos: i64,
}

/// Builds the fields of a packet of the given kind for `length` bytes at
/// `offset` of a buffer of `capacity` bytes: the identification header is
/// marked as beginning the stream, the setup header and audio packets are
/// not. An offset past the buffer's end is refused by the `requires`, as
/// slicing the buffer there panics.
pub fn packet_fields(offset: i32, length: i32, kind: PacketKind, capacity: usize) -> (p:
    PacketFields)
    requires
        offset as usize <= capacity,
    ensures
        p.start == offset as usize,
        p.bytes == length as i64,
        p.b_o_s == (if kind == PacketKind::IdentificationHeader { 1i64 } else { 0i64 }),
        p.packetno == 0,
        p.granulepos == 0,
{
    let b_o_s: i64 = if begins_stream(kind) {
        1
    } else {
        0
    };
    PacketFields { start: offset as usize, bytes: length as i64, b_o_s, packetno: 0, granulepos: 0 }
}

/// The stages of initialisation, each ended by one libvorbis call.
#[derive(PartialEq, Eq, Structural, Clone, Copy, Debug)]
pub enum InitPhase {
    /// `vorbis_synthesis_headerin` on the identification header.
    IdentificationHeader,
    /// `vorbis_synthesis_headerin` on the setup header.
    SetupHeader,
    /// `vorbis_synthesis_init`.
    Synthesis,
}

/// The packet a stage of initialisation hands to libvorbis: the
/// identification header first, then the setup header; setting up the
/// synthesis state takes none.
pub fn stage_packet(phase: InitPhase) -> (kind: Option<PacketKind>)
    ensures
        kind == (match phase {
            InitPhase::IdentificationHeader => Some(PacketKind::IdentificationHeader),
            InitPhase::SetupHeader => Some(PacketKind::SetupHeader),
            InitPhase::Synthesis => None::<PacketKind>,
        }),
{
    match phase {
        InitPhase::IdentificationHeader => Some(PacketKind::IdentificationHeader),
        InitPhase::SetupHeader => Some(PacketKind::SetupHeader),
        InitPhase::Synthesis => None,
    }
}

/// What to do after a stage of initialisation ended.
#[derive(PartialEq, Eq, Structural, Clone, Copy, Debug)]
pub enum InitStep {
    /// Go on with the given stage.
    Next(InitPhase),
    /// Set up the block, mark the decoder initialised and report `READY`.
    Ready,
    /// Stop and report the given code.
    Fail(i32),
}

/// The code reported for a header packet that libvorbis refused with `error`.
pub open spec fn header_failure(error: i32) -> i32 {
    error | HEADER_ERROR_FLAG
}

/// The step that follows a stage that ended with `error` (0 for success).
pub open spec fn init_transition(phase: InitPhase, error: i32) -> InitStep {
    match phase {
        InitPhase::IdentificationHeader => if error != 0 {
            InitStep::Fail(header_failure(error))
        } else {
            InitStep::Next(InitPhase::SetupHeader)
        },
        InitPhase::SetupHeader => if error != 0 {
            InitStep::Fail(header_failure(error))
        } else {
            InitStep::Next(InitPhase::Synthesis)
        },
        InitPhase::Synthesis => if error != 0 {
            InitStep::Fail(SYNTHESIS_FAILED)
        } else {
            InitStep::Ready
        },
    }
}

/// Decides the next step of initialisation.
pub fn init_step(phase: InitPhase, error: i32) -> (step: InitStep)
    ensures
        step == init_transition(phase, error),
{
    match phase {
        InitPhase::IdentificationHeader => {
            if error != 0 {
                InitStep::Fail(error | HEADER_ERROR_FLAG)
            } else {
                InitStep::Next(InitPhase::SetupHeader)
            }
        },
        InitPhase::SetupHeader => {
            if error != 0 {
                InitStep::Fail(error | HEADER_ERROR_FLAG)
            } else {
                InitStep::Next(InitPhase::Synthesis)
            }
        },
        InitPhase::Synthesis => {
            if error != 0 {
                InitStep::Fail(SYNTHESIS_FAILED)
            } else {
                InitStep::Ready
            }
        },
    }
}

/// What initialisation reports when the identification header, the setup
/// header and the synthesis set-up end with the three given codes: the
/// first header failure flagged with `HEADER_ERROR_FLAG`, `SYNTHESIS_FAILED`,
/// or `READY`.
pub open spec fn initialise_outcome(id_error: i32, setup_error: i32, synthesis_error: i32) -> i32 {
    if id_error != 0 {
        header_failure(id_error)
    } else if setup_error != 0 {
        header_failure(setup_error)
    } else if synthesis_error != 0 {
        SYNTHESIS_FAILED
    } else {
        READY
    }
}

/// The report of a step that ends initialisation.
pub open spec fn step_report(step: InitStep) -> i32 {
    match step {
        InitStep::Ready => READY,
        InitStep::Fail(code) => code,
        InitStep::Next(_) => SYNTHESIS_FAILED,
    }
}

/// The step that ends initialisation when the stages end with the three
/// given codes: the first step that is not a move to the next stage.
pub open spec fn init_final_step(id_error: i32, setup_error: i32, synthesis_error: i32) -> InitStep {
    let s1 = init_transition(InitPhase::IdentificationHeader, id_error);
    let s2 = init_transition(InitPhase::SetupHeader, setup_error);
    let s3 = init_transition(InitPhase::Synthesis, synthesis_error);
    if s1 != InitStep::Next(InitPhase::SetupHeader) {
        s1
    } else if s2 != InitStep::Next(InitPhase::Synthesis) {
        s2
    } else {
        s3
    }
}

/// Running the steps from the identification header on, feeding each stage
/// its code, ends exactly as `initialise_outcome` says, and the decoder is
/// marked ready only when all three stages succeeded.
pub proof fn init_steps_follow_outcome(id_error: i32, setup_error: i32, synthesis_error: i32)
    ensures
        step_report(init_final_step(id_error, setup_error, synthesis_error)) == initialise_outcome(
            id_error,
            setup_error,
            synthesis_error,
        ),
        init_final_step(id_error, setup_error, synthesis_error) == InitStep::Ready <==> (id_error
            == 0 && setup_error == 0 && synthesis_error == 0),
        init_final_step(id_error, setup_error, synthesis_error) !is Next,
{
}

/// The outcomes of initialisation can be told apart: `READY` only when every
/// stage succeeded, `SYNTHESIS_FAILED` only when the headers were taken and the
/// synthesis set-up failed, and a refused header gives a code with
/// `HEADER_ERROR_FLAG` set, which is neither of the two.
pub proof fn initialise_outcomes_distinct(id_error: i32, setup_error: i32, synthesis_error: i32)
    ensures
        initialise_outcome(id_error, setup_error, synthesis_error) == READY <==> (id_error == 0
            && setup_error == 0 && synthesis_error == 0),
        initialise_outcome(id_error, setup_error, synthesis_error) == SYNTHESIS_FAILED <==> (
        id_error == 0 && setup_error == 0 && synthesis_error != 0),
        (id_error != 0 || setup_error != 0) ==> initialise_outcome(
            id_error,
            setup_error,
            synthesis_error,
        ) & HEADER_ERROR_FLAG == HEADER_ERROR_FLAG,
{
    header_failure_flagged(id_error);
    header_failure_flagged(setup_error);
}

/// A flagged header failure has the flag set and so is neither 0 nor 1.
pub proof fn header_failure_flagged(error: i32)
    ensures
        header_failure(error) & HEADER_ERROR_FLAG == HEADER_ERROR_FLAG,
        header_failure(error) != SYNTHESIS_FAILED,
        header_failure(error) != READY,
        error < 0 ==> header_failure(error) < 0,
{
    assert((error | 0x0100_0000i32) & 0x0100_0000i32 == 0x0100_0000i32) by (bit_vector);
    assert(error < 0 ==> (error | 0x0100_0000i32) < 0) by (bit_vector);
    assert((error | 0x0100_0000i32) != 0i32) by (bit_vector);
    assert((error | 0x0100_0000i32) != 1i32) by (bit_vector);
}

/// With libvorbis's error codes, which are all negative, initialisation
/// reports a negative value exactly when a header packet was refused, 0
/// exactly when the synthesis set-up failed, and `READY` otherwise.
pub proof fn initialise_outcome_sign(id_error: i32, setup_error: i32, synthesis_error: i32)
    requires
        id_error <= 0,
        setup_error <= 0,
    ensures
        initialise_outcome(id_error, setup_error, synthesis_error) < 0 <==> (id_error != 0
            || setup_error != 0),
        initialise_outcome(id_error, setup_error, synthesis_error) >= 0 ==> (initialise_outcome(
            id_error,
            setup_error,
            synthesis_error,
        ) == SYNTHESIS_FAILED || initialise_outcome(id_error, setup_error, synthesis_error)
            == READY),
{
    header_failure_flagged(id_error);
    header_failure_flagged(setup_error);
}

/// What to do with an audio packet once `vorbis_synthesis` ran on it.
#[derive(PartialEq, Eq, Structural, Clone, Copy, Debug)]
pub enum InputStep {
    /// Report the given error.
    Report(i32),
    /// Submit the block with `vorbis_synthesis_blockin` and report its result.
    SubmitBlock,
}

/// Decides what follows the synthesis of a packet.
pub fn input_step(synthesis_error: i32) -> (step: InputStep)
    ensures
        step == (if synthesis_error != 0 {
            InputStep::Report(synthesis_error)
        } else {
            InputStep::SubmitBlock
        }),
{
    if synthesis_error != 0 {
        InputStep::Report(synthesis_error)
    } else {
        InputStep::SubmitBlock
    }
}

/// How many samples per channel one output call copies: what libvorbis has
/// available or what fits in the Java arrays, whichever is less, both
/// reinterpreted as `usize`.
pub open spec fn chunk_size(available: i32, length: i32) -> usize {
    if available as usize > length as usize {
        length as usize
    } else {
        available as usize
    }
}

/// Picks the chunk of samples for one output call.
pub fn output_chunk(available: i32, length: i32) -> (chunk: usize)
    ensures
        chunk == chunk_size(available, length),
{
    let available_samples: usize = available as usize;
    let buffer_length: usize = length as usize;
    if available_samples > buffer_length {
        buffer_length
    } else {
        available_samples
    }
}

/// Reading in two calls, the second given what the first left available,
/// copies as many samples as one call with both lengths: none is lost and
/// none repeated.
pub proof fn output_chunks_compose(available: i32, n1: i32, n2: i32)
    requires
        available >= 0,
        n1 >= 0,
        n2 >= 0,
        n1 + n2 <= i32::MAX,
    ensures
        chunk_size(available, n1) + chunk_size(
            (available - chunk_size(available, n1)) as i32,
            n2,
        ) == chunk_size(available, (n1 + n2) as i32),
{
}

/// How an output call ends.
pub struct OutputEnd {
    /// Samples to mark as read with `vorbis_synthesis_read`, if any.
    pub consume: Option<i32>,
    /// The value handed back to Java.
    pub report: i32,
}

/// Decides how an output call ends once the chunk was copied (if it was not
/// empty): an exception raised while copying reports `OUTPUT_FAILED` and
/// leaves the samples unread; otherwise the chunk is marked read and its size
/// reported. An empty chunk copies nothing and reports 0.
pub fn output_end(chunk: usize, exception_raised: bool) -> (end: OutputEnd)
    ensures
        chunk == 0 ==> end.consume == None::<i32> && end.report == 0,
        chunk > 0 && exception_raised ==> end.consume == None::<i32> && end.report
            == OUTPUT_FAILED,
        chunk > 0 && !exception_raised ==> end.consume == Some(chunk as i32) && end.report
            == chunk as i32,
{
    if chunk > 0 {
        if exception_raised {
            OutputEnd { consume: None, report: OUTPUT_FAILED }
        } else {
            OutputEnd { consume: Some(chunk as i32), report: chunk as i32 }
        }
    } else {
        OutputEnd { consume: None, report: 0 }
    }
}

/// With a non-negative sample count and array length, an output call never
/// copies more samples than either of them, and on success it reports and
/// consumes exactly the samples it copied.
pub proof fn output_stays_within_bounds(available: i32, length: i32, exception_raised: bool, end: OutputEnd)
    requires
        available >= 0,
        length >= 0,
        chunk_size(available, length) == 0 ==> end.consume == None::<i32> && end.report == 0,
        chunk_size(available, length) > 0 && exception_raised ==> end.consume == None::<i32>
            && end.report == OUTPUT_FAILED,
        chunk_size(available, length) > 0 && !exception_raised ==> end.consume == Some(
            chunk_size(available, length) as i32,
        ) && end.report == chunk_size(available, length) as i32,
    ensures
        chunk_size(available, length) <= available,
        chunk_size(available, length) <= length,
        chunk_size(available, length) == available || chunk_size(available, length) == length,
        !exception_raised ==> end.report == chunk_size(available, length) && 0 <= end.report
            <= length,
        end.consume matches Some(n) ==> n == end.report && n > 0,
        end.report == OUTPUT_FAILED ==> exception_raised,
{
}

/// What the decoder keeps of its own state, beside the libvorbis structures:
/// whether initialisation finished, so that the synthesis state and the block
/// exist and have to be cleared.
pub struct Lifecycle {
    initialized: bool,
}

/// What destroying a decoder clears.
pub struct Teardown {
    /// Clear the block and the synthesis state.
    pub clear_synthesis: bool,
    /// Clear the stream info.
    pub clear_info: bool,
}

impl Lifecycle {
    pub closed spec fn is_initialized(&self) -> bool {
        self.initialized
    }

    /// A decoder that was just made: info set up, no synthesis state yet.
    pub fn new() -> (l: Lifecycle)
        ensures
            !l.is_initialized(),
    {
        Lifecycle { initialized: false }
    }

    /// Whether initialisation finished.
    pub fn initialized(&self) -> (b: bool)
        ensures
            b == self.is_initialized(),
    {
        self.initialized
    }

    /// Applies a step of initialisation: `Ready` marks the decoder
    /// initialised, every other step leaves it as it was.
    pub fn apply(&mut self, step: InitStep)
        ensures
            final(self).is_initialized() == (old(self).is_initialized() || step
                == InitStep::Ready),
    {
        if step == InitStep::Ready {
            self.initialized = true;
        }
    }

    /// What destroying the decoder clears: the stream info always, the block
    /// and the synthesis state only when initialisation finished.
    pub fn teardown(&self) -> (t: Teardown)
        ensures
            t.clear_info,
            t.clear_synthesis == self.is_initialized(),
    {
        Teardown { clear_synthesis: self.initialized, clear_info: true }
    }
}

/// A decoder that is initialised stays so whatever step a further
/// initialisation ends with, so its synthesis state is still cleared on
/// destruction; and with libvorbis's negative error codes, a further
/// initialisation whose identification header is refused reports a negative
/// code.
pub proof fn reinitialise_keeps_state(
    before: Lifecycle,
    after: Lifecycle,
    id_error: i32,
    setup_error: i32,
    synthesis_error: i32,
)
    requires
        before.is_initialized(),
        after.is_initialized() == (before.is_initialized() || init_final_step(
            id_error,
            setup_error,
            synthesis_error,
        ) == InitStep::Ready),
    ensures
        after.is_initialized(),
        id_error < 0 ==> initialise_outcome(id_error, setup_error, synthesis_error) < 0,
        id_error < 0 ==> init_final_step(id_error, setup_error, synthesis_error) != InitStep::Ready,
{
    header_failure_flagged(id_error);
    init_steps_follow_outcome(id_error, setup_error, synthesis_error);
}

/// A fresh decoder to which the step that ended its initialisation was
/// applied clears its synthesis state on destruction exactly when the
/// initialisation reported `READY`.
pub proof fn teardown_matches_initialisation(
    fresh: Lifecycle,
    after: Lifecycle,
    id_error: i32,
    setup_error: i32,
    synthesis_error: i32,
)
    requires
        !fresh.is_initialized(),
        after.is_initialized() == (fresh.is_initialized() || init_final_step(
            id_error,
            setup_error,
            synthesis_error,
        ) == InitStep::Ready),
    ensures
        after.is_initialized() <==> initialise_outcome(id_error, setup_error, synthesis_error)
            == READY,
{
    init_steps_follow_outcome(id_error, setup_error, synthesis_error);
    initialise_outcomes_distinct(id_error, setup_error, synthesis_error);
}

} // verus!
