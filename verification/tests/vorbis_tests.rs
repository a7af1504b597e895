use lavaplayer_natives::vorbis::{
    begins_stream, init_step, input_step, output_chunk, output_end, packet_fields, stage_packet,
    InitPhase, InitStep, InputStep, PacketKind, Lifecycle, HEADER_ERROR_FLAG, OUTPUT_FAILED, READY, SYNTHESIS_FAILED,
};

fn run_init(errors: [i32; 3]) -> (InitStep, i32) {
    let mut phase = InitPhase::IdentificationHeader;
    let mut i = 0;
    loop {
        let step = init_step(phase, errors[i]);
        match step {
            InitStep::Next(next) => {
                phase = next;
                i += 1;
            }
            InitStep::Ready => return (step, READY),
            InitStep::Fail(code) => return (step, code),
        }
    }
}

#[test]
fn initialisation_succeeds() {
    assert_eq!(run_init([0, 0, 0]), (InitStep::Ready, 1));
}

#[test]
fn refused_identification_header_is_flagged() {
    // OV_ENOTVORBIS = -132
    let (_, code) = run_init([-132, 0, 0]);
    assert_eq!(code, -132 | 0x0100_0000);
    assert_eq!(code & HEADER_ERROR_FLAG, HEADER_ERROR_FLAG);
}

#[test]
fn refused_setup_header_is_flagged() {
    // OV_EBADHEADER = -133
    let (_, code) = run_init([0, -133, 0]);
    assert_eq!(code, -133 | 0x0100_0000);
    assert_ne!(code, READY);
    assert_ne!(code, SYNTHESIS_FAILED);
}

#[test]
fn positive_header_error_is_flagged() {
    assert_eq!(init_step(InitPhase::SetupHeader, 5), InitStep::Fail(0x0100_0005));
}

#[test]
fn failed_synthesis_reports_zero() {
    assert_eq!(run_init([0, 0, -1]), (InitStep::Fail(0), 0));
}

#[test]
fn steps_follow_stages() {
    assert_eq!(
        init_step(InitPhase::IdentificationHeader, 0),
        InitStep::Next(InitPhase::SetupHeader)
    );
    assert_eq!(init_step(InitPhase::SetupHeader, 0), InitStep::Next(InitPhase::Synthesis));
    assert_eq!(init_step(InitPhase::Synthesis, 0), InitStep::Ready);
}

#[test]
fn lifecycle_clears_synthesis_only_after_ready() {
    let mut l = Lifecycle::new();
    assert!(!l.initialized());
    let t = l.teardown();
    assert!(t.clear_info);
    assert!(!t.clear_synthesis);
    l.apply(InitStep::Fail(0));
    assert!(!l.teardown().clear_synthesis);
    l.apply(InitStep::Next(InitPhase::SetupHeader));
    assert!(!l.initialized());
    l.apply(InitStep::Ready);
    assert!(l.initialized());
    let t = l.teardown();
    assert!(t.clear_synthesis);
    assert!(t.clear_info);
}

#[test]
fn input_reports_synthesis_error() {
    assert_eq!(input_step(-135), InputStep::Report(-135));
    assert_eq!(input_step(0), InputStep::SubmitBlock);
}

#[test]
fn output_chunk_is_the_smaller() {
    assert_eq!(output_chunk(1000, 512), 512);
    assert_eq!(output_chunk(300, 512), 300);
    assert_eq!(output_chunk(512, 512), 512);
    assert_eq!(output_chunk(0, 512), 0);
}

#[test]
fn output_chunk_with_negative_length_takes_available() {
    // A negative length becomes a huge usize, so all available samples fit.
    assert_eq!(output_chunk(300, -1), 300);
}

#[test]
fn output_end_cases() {
    let e = output_end(0, true);
    assert_eq!(e.consume, None);
    assert_eq!(e.report, 0);
    let e = output_end(256, true);
    assert_eq!(e.consume, None);
    assert_eq!(e.report, OUTPUT_FAILED);
    assert_eq!(OUTPUT_FAILED, -1);
    let e = output_end(256, false);
    assert_eq!(e.consume, Some(256));
    assert_eq!(e.report, 256);
}

#[test]
fn packet_fields_over_buffer() {
    let p = packet_fields(3, 30, PacketKind::IdentificationHeader, 64);
    assert_eq!(p.start, 3);
    assert_eq!(p.bytes, 30);
    assert_eq!(p.b_o_s, 1);
    assert_eq!(p.packetno, 0);
    assert_eq!(p.granulepos, 0);
    let p = packet_fields(64, 0, PacketKind::Audio, 64);
    assert_eq!(p.start, 64);
    assert_eq!(p.b_o_s, 0);
}

#[test]
fn two_reads_copy_as_many_as_one() {
    for (available, n1, n2) in [(1000, 300, 500), (1000, 700, 700), (0, 5, 5), (100, 0, 50)] {
        let first = output_chunk(available, n1);
        let second = output_chunk(available - first as i32, n2);
        assert_eq!(first + second, output_chunk(available, n1 + n2));
    }
}

#[test]
fn refused_headers_report_negative() {
    let (_, code) = run_init([-132, 0, 0]);
    assert!(code < 0);
    let (_, code) = run_init([0, -133, 0]);
    assert!(code < 0);
}

#[test]
fn reinitialising_keeps_decoder_initialised() {
    let mut l = Lifecycle::new();
    l.apply(InitStep::Ready);
    let (step, code) = run_init([-133, 0, 0]);
    l.apply(step);
    assert!(code < 0);
    assert!(l.initialized());
    assert!(l.teardown().clear_synthesis);
}

#[test]
fn only_identification_header_begins_stream() {
    assert!(begins_stream(PacketKind::IdentificationHeader));
    assert!(!begins_stream(PacketKind::SetupHeader));
    assert!(!begins_stream(PacketKind::Audio));
    assert_eq!(packet_fields(0, 10, PacketKind::SetupHeader, 10).b_o_s, 0);
    assert_eq!(packet_fields(0, 10, PacketKind::IdentificationHeader, 10).b_o_s, 1);
}

#[test]
fn stages_take_header_packets_in_order() {
    assert_eq!(stage_packet(InitPhase::IdentificationHeader), Some(PacketKind::IdentificationHeader));
    assert_eq!(stage_packet(InitPhase::SetupHeader), Some(PacketKind::SetupHeader));
    assert_eq!(stage_packet(InitPhase::Synthesis), None);
}
