use spectrusty_tutorial::spectrum::{FrameAnswer, FrameReport, FrameRun, FrameTask, ZxSpectrum};
use spectrusty_tutorial::state::{EmulatorState, RecordOutcome, Recording};
use spectrusty_tutorial::tape::{TapKind, Tape, TapeMotion};

fn machine() -> ZxSpectrum<u8, u16> {
    ZxSpectrum::new(7, 9)
}

/// Runs a frame with the answers given; a task that the answers do not
/// cover ends the run.
fn drive(spectrum: &mut ZxSpectrum<u8, u16>, answers: &[FrameAnswer]) -> (FrameRun, Vec<FrameTask>) {
    let mut run = spectrum.run_frame();
    let mut tasks = vec![run.task];
    for answer in answers {
        tasks.push(spectrum.advance(&mut run, *answer));
    }
    (run, tasks)
}

#[test]
fn a_new_machine_has_nothing_pending() {
    let spectrum = machine();
    assert_eq!(spectrum.cpu, 7);
    assert_eq!(spectrum.ula, 9);
    assert!(!spectrum.nmi_request);
    assert_eq!(spectrum.reset_request, None);
    assert_eq!(spectrum.state, EmulatorState::new());
}

#[test]
fn requests_wait_for_the_next_frame() {
    let mut spectrum = machine();
    spectrum.reset(false);
    assert_eq!(spectrum.reset_request, Some(false));
    spectrum.reset(true);
    assert_eq!(spectrum.reset_request, Some(true));
    spectrum.trigger_nmi();
    assert!(spectrum.nmi_request);
    assert_eq!((spectrum.cpu, spectrum.ula), (7, 9));
}

#[test]
fn a_plain_frame_probes_prepares_and_executes() {
    let mut spectrum = machine();
    let (run, tasks) = drive(
        &mut spectrum,
        &[FrameAnswer::Count(3), FrameAnswer::Tick(-10), FrameAnswer::Tick(69_878)],
    );
    let report = FrameReport {
        fts_delta: 69_888,
        state_changed: false,
        end_of_tape: false,
        recording: Recording::Off,
    };
    assert_eq!(
        tasks,
        vec![
            FrameTask::ReadEarInCount,
            FrameTask::EnsureNextFrame,
            FrameTask::ExecuteFrame,
            FrameTask::Finished(report),
        ]
    );
    assert!(run.is_over());
    assert_eq!(run.report(), Some(report));
    assert_eq!(spectrum.state.prev_ear_in_counter, 3);
    assert_eq!((spectrum.cpu, spectrum.ula), (7, 9));
}

#[test]
fn a_frame_in_progress_has_no_report() {
    let spectrum = machine();
    let run = spectrum.run_frame();
    assert!(!run.is_over());
    assert_eq!(run.report(), None);
    assert_eq!(run.fts_start, 0);
    assert!(!run.turbo && !run.running && !run.end_of_tape);
}

#[test]
fn tick_difference_does_not_overflow() {
    let mut spectrum = machine();
    let (run, _) = drive(
        &mut spectrum,
        &[FrameAnswer::Count(0), FrameAnswer::Tick(i32::MIN), FrameAnswer::Tick(i32::MAX)],
    );
    assert_eq!(run.report().map(|r| r.fts_delta), Some(4_294_967_295));
    let mut spectrum = machine();
    let (run, _) = drive(
        &mut spectrum,
        &[FrameAnswer::Count(0), FrameAnswer::Tick(i32::MAX), FrameAnswer::Tick(i32::MIN)],
    );
    assert_eq!(run.report().map(|r| r.fts_delta), Some(-4_294_967_295));
}

#[test]
fn an_accepted_interrupt_is_cleared_and_a_reset_follows() {
    let mut spectrum = machine();
    spectrum.trigger_nmi();
    spectrum.reset(true);
    let (run, tasks) = drive(
        &mut spectrum,
        &[
            FrameAnswer::Count(0),
            FrameAnswer::Tick(0),
            FrameAnswer::Flag(true),
            FrameAnswer::Done,
            FrameAnswer::Tick(100),
        ],
    );
    assert_eq!(
        tasks[..5],
        [
            FrameTask::ReadEarInCount,
            FrameTask::EnsureNextFrame,
            FrameTask::TriggerNmi,
            FrameTask::Reset { hard: true },
            FrameTask::ExecuteFrame,
        ]
    );
    assert_eq!(run.report().map(|r| r.fts_delta), Some(100));
    assert!(!spectrum.nmi_request);
    assert_eq!(spectrum.reset_request, None);
}

#[test]
fn a_rejected_interrupt_stays_pending() {
    let mut spectrum = machine();
    spectrum.trigger_nmi();
    let (run, tasks) = drive(
        &mut spectrum,
        &[
            FrameAnswer::Count(0),
            FrameAnswer::Tick(0),
            FrameAnswer::Flag(false),
            FrameAnswer::Tick(5),
        ],
    );
    assert_eq!(tasks[2], FrameTask::TriggerNmi);
    assert_eq!(tasks[3], FrameTask::ExecuteFrame);
    assert!(run.is_over());
    assert!(spectrum.nmi_request);
}

#[test]
fn a_soft_reset_is_made_once() {
    let mut spectrum = machine();
    spectrum.reset(false);
    let (_, tasks) = drive(
        &mut spectrum,
        &[FrameAnswer::Count(0), FrameAnswer::Tick(0), FrameAnswer::Done, FrameAnswer::Tick(5)],
    );
    assert_eq!(tasks[2], FrameTask::Reset { hard: false });
    assert_eq!(spectrum.reset_request, None);
    let (_, tasks) = drive(&mut spectrum, &[FrameAnswer::Count(0), FrameAnswer::Tick(0)]);
    assert_eq!(tasks[2], FrameTask::ExecuteFrame);
}

#[test]
fn recording_goes_before_probing() {
    let mut spectrum = machine();
    spectrum.state.tape = Tape { running: true, tap: Some(TapKind::Writer) };
    spectrum.state.flash_tape = true;
    let (run, tasks) = drive(
        &mut spectrum,
        &[
            FrameAnswer::Recorded(RecordOutcome::Saved { chunks: 1, decoder_idle: false }),
            FrameAnswer::Tick(0),
            FrameAnswer::Tick(70_000),
        ],
    );
    assert_eq!(
        tasks[..3],
        [FrameTask::WriteMicOut, FrameTask::EnsureNextFrame, FrameTask::ExecuteFrame]
    );
    assert_eq!(
        run.report(),
        Some(FrameReport {
            fts_delta: 70_000,
            state_changed: true,
            end_of_tape: false,
            recording: Recording::Saved { chunks: 1 },
        })
    );
    assert!(spectrum.state.turbo);
    assert_eq!(spectrum.state.prev_ear_in_counter, 0);
}

#[test]
fn a_failed_write_is_reported_and_stops_the_tape() {
    let mut spectrum = machine();
    spectrum.state.tape = Tape { running: true, tap: Some(TapKind::Writer) };
    spectrum.state.turbo = true;
    let (run, _) = drive(
        &mut spectrum,
        &[FrameAnswer::Recorded(RecordOutcome::Failed), FrameAnswer::Tick(0), FrameAnswer::Tick(1)],
    );
    let report = run.report().unwrap();
    assert_eq!(report.recording, Recording::Failed);
    assert!(report.state_changed);
    assert!(!spectrum.state.turbo);
    assert_eq!(spectrum.state.tape.motion(), TapeMotion::Stopped);
}

#[test]
fn a_started_tape_is_fed_in_the_same_frame() {
    let mut spectrum = machine();
    spectrum.state.insert_tape();
    let (run, tasks) = drive(
        &mut spectrum,
        &[
            FrameAnswer::Count(1001),
            FrameAnswer::Tick(0),
            FrameAnswer::Flag(true),
            FrameAnswer::Done,
            FrameAnswer::Tick(69_888),
        ],
    );
    assert_eq!(
        tasks[..5],
        [
            FrameTask::ReadEarInCount,
            FrameTask::EnsureNextFrame,
            FrameTask::PeekTape,
            FrameTask::FeedEarIn { frames: 1 },
            FrameTask::ExecuteFrame,
        ]
    );
    let report = run.report().unwrap();
    assert!(report.state_changed);
    assert!(!report.end_of_tape);
    assert!(spectrum.state.turbo);
    assert_eq!(spectrum.state.tape.motion(), TapeMotion::Playing);
}

#[test]
fn a_tape_being_written_is_reopened_before_it_plays() {
    let mut spectrum = machine();
    spectrum.state.tape = Tape { running: false, tap: Some(TapKind::Writer) };
    spectrum.state.flash_tape = true;
    let (_, tasks) = drive(
        &mut spectrum,
        &[FrameAnswer::Count(2000), FrameAnswer::Flag(true), FrameAnswer::Tick(0)],
    );
    assert_eq!(
        tasks,
        vec![
            FrameTask::ReadEarInCount,
            FrameTask::ReopenTape,
            FrameTask::EnsureNextFrame,
            FrameTask::PeekTape,
        ]
    );
    assert_eq!(spectrum.state.tape, Tape { running: true, tap: Some(TapKind::Reader) });
}

#[test]
fn a_tape_that_cannot_be_reopened_is_lost() {
    let mut spectrum = machine();
    spectrum.state.tape = Tape { running: false, tap: Some(TapKind::Writer) };
    spectrum.state.flash_tape = true;
    let (run, tasks) = drive(
        &mut spectrum,
        &[FrameAnswer::Count(2000), FrameAnswer::Flag(false), FrameAnswer::Tick(0)],
    );
    assert_eq!(
        tasks,
        vec![
            FrameTask::ReadEarInCount,
            FrameTask::ReopenTape,
            FrameTask::TapeLost,
            FrameTask::TapeLost,
        ]
    );
    assert!(run.is_over());
    assert_eq!(run.report(), None);
    assert_eq!(spectrum.state.tape, Tape { running: true, tap: None });
}

#[test]
fn the_end_of_a_running_tape_is_told() {
    let mut spectrum = machine();
    spectrum.state.tape = Tape { running: true, tap: Some(TapKind::Reader) };
    spectrum.state.turbo = true;
    spectrum.state.prev_ear_in_counter = 4000;
    let (run, tasks) = drive(
        &mut spectrum,
        &[
            FrameAnswer::Count(4000),
            FrameAnswer::Tick(0),
            FrameAnswer::Flag(false),
            FrameAnswer::Tick(69_888),
        ],
    );
    assert_eq!(tasks[2], FrameTask::PeekTape);
    assert_eq!(tasks[3], FrameTask::ExecuteFrame);
    assert_eq!(
        run.report(),
        Some(FrameReport {
            fts_delta: 69_888,
            state_changed: true,
            end_of_tape: true,
            recording: Recording::Off,
        })
    );
    assert!(!spectrum.state.turbo);
    assert_eq!(spectrum.state.tape.motion(), TapeMotion::Stopped);
}

#[test]
fn the_end_of_a_tape_just_started_is_not_told() {
    let mut spectrum = machine();
    spectrum.state.insert_tape();
    let (run, _) = drive(
        &mut spectrum,
        &[
            FrameAnswer::Count(1001),
            FrameAnswer::Tick(0),
            FrameAnswer::Flag(false),
            FrameAnswer::Tick(69_888),
        ],
    );
    let report = run.report().unwrap();
    assert!(!report.end_of_tape);
    assert!(!report.state_changed);
    assert!(!spectrum.state.turbo);
    assert_eq!(spectrum.state.tape.motion(), TapeMotion::Stopped);
}

#[test]
fn an_answer_not_asked_for_changes_nothing() {
    let mut spectrum = machine();
    spectrum.trigger_nmi();
    let mut run = spectrum.run_frame();
    for answer in [
        FrameAnswer::Done,
        FrameAnswer::Flag(true),
        FrameAnswer::Tick(4),
        FrameAnswer::Recorded(RecordOutcome::Failed),
    ] {
        let before = run;
        assert_eq!(spectrum.advance(&mut run, answer), FrameTask::ReadEarInCount);
        assert_eq!(run, before);
        assert!(spectrum.nmi_request);
        assert_eq!(spectrum.state, EmulatorState::new());
    }
}

#[test]
fn tasks_tell_which_answers_they_ask_for() {
    assert!(FrameTask::WriteMicOut.asks_for(&FrameAnswer::Recorded(RecordOutcome::Failed)));
    assert!(FrameTask::ReadEarInCount.asks_for(&FrameAnswer::Count(1)));
    assert!(FrameTask::ReopenTape.asks_for(&FrameAnswer::Flag(false)));
    assert!(FrameTask::EnsureNextFrame.asks_for(&FrameAnswer::Tick(0)));
    assert!(FrameTask::PeekTape.asks_for(&FrameAnswer::Flag(true)));
    assert!(FrameTask::FeedEarIn { frames: 1 }.asks_for(&FrameAnswer::Done));
    assert!(FrameTask::TriggerNmi.asks_for(&FrameAnswer::Flag(true)));
    assert!(FrameTask::Reset { hard: true }.asks_for(&FrameAnswer::Done));
    assert!(FrameTask::ExecuteFrame.asks_for(&FrameAnswer::Tick(0)));
    assert!(!FrameTask::ExecuteFrame.asks_for(&FrameAnswer::Done));
    assert!(!FrameTask::TapeLost.asks_for(&FrameAnswer::Done));
    assert!(!FrameTask::ReadEarInCount.asks_for(&FrameAnswer::Tick(1)));
}

/// What a loading program does to the EAR IN line, frame by frame: it
/// probes the line in a tight loop for as long as it waits for the tape.
fn pilot_frame(spectrum: &mut ZxSpectrum<u8, u16>, count: u32, pulses_left: bool) -> FrameReport {
    let mut run = spectrum.run_frame();
    let mut steps = 0;
    while !run.is_over() {
        let answer = match run.task {
            FrameTask::ReadEarInCount => FrameAnswer::Count(count),
            FrameTask::EnsureNextFrame => FrameAnswer::Tick(0),
            FrameTask::PeekTape => FrameAnswer::Flag(pulses_left),
            FrameTask::ExecuteFrame => FrameAnswer::Tick(69_888),
            _ => FrameAnswer::Done,
        };
        spectrum.advance(&mut run, answer);
        steps += 1;
        assert!(steps <= 9);
    }
    run.report().unwrap()
}

#[test]
fn a_pilot_tone_chunk_enters_and_leaves_turbo() {
    // a tape of one chunk with four seconds of pilot tone: 200 frames
    let mut spectrum = machine();
    spectrum.state.insert_tape();
    // the program does something else first
    for _ in 0..10 {
        let report = pilot_frame(&mut spectrum, 12, true);
        assert!(!report.state_changed);
        assert!(!spectrum.state.turbo);
        assert_eq!(spectrum.state.tape.motion(), TapeMotion::Stopped);
    }
    // then it waits for the tape: turbo within the first frame
    let report = pilot_frame(&mut spectrum, 3400, true);
    assert!(report.state_changed);
    assert!(spectrum.state.turbo);
    assert_eq!(spectrum.state.tape.motion(), TapeMotion::Playing);
    for _ in 0..199 {
        let report = pilot_frame(&mut spectrum, 3400, true);
        assert!(!report.state_changed);
        assert!(spectrum.state.turbo);
    }
    // the chunk ends: out of turbo within one frame
    let report = pilot_frame(&mut spectrum, 3400, false);
    assert!(report.state_changed && report.end_of_tape);
    assert!(!spectrum.state.turbo);
    assert_eq!(spectrum.state.tape.motion(), TapeMotion::Stopped);
}
