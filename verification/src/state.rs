//! The state of the emulator program, and the rules by which the tape
//! starts, stops and speeds the emulation up.
//!
//! The rules look at how often the running program probed the EAR IN line
//! during the frame just completed. A program that waits for tape data polls
//! the line in a tight loop; one that has what it wanted leaves it alone.
use vstd::prelude::*;
use crate::tape::{Tape, TapKind};

verus! {

/// With turbo on and the tape playing, two frames in a row that together
/// probed the EAR IN line fewer times than this stop the tape.
pub const IDLE_THRESHOLD: u32 = 20;

/// With flash loading on and the tape stopped, a frame that probed the
/// EAR IN line more often than this starts the tape.
pub const PROBE_THRESHOLD: u32 = 1000;

/// For how many frames ahead the EAR IN line is fed from the tape.
pub const EAR_IN_FRAMES: usize = 1;

/// The probe counts at which the tape stops and starts by itself. They were
/// found by trial against the clock rate of the hardware.
#[derive(Debug, Clone, Copy, PartialEq, Eq, Structural)]
pub struct TapeThresholds {
    /// See [`IDLE_THRESHOLD`].
    pub idle: u32,
    /// See [`PROBE_THRESHOLD`].
    pub probe: u32,
}

/// The state of the emulator program.
#[derive(Debug, Clone, Copy, PartialEq, Eq, Structural)]
pub struct EmulatorState {
    /// The tape recorder, maybe with a tape inside.
    pub tape: Tape,
    /// The EAR IN probe count that was looked at last.
    pub prev_ear_in_counter: u32,
    /// Is the emulation paused?
    pub paused: bool,
    /// Do we run as fast as possible?
    pub turbo: bool,
    /// Do we speed up by ourselves while the tape loads or saves?
    pub flash_tape: bool,
    /// Do we want to hear the tape signal?
    pub audible_tape: bool,
    /// The index of the selected joystick within its device.
    pub sub_joy: usize,
    /// The probe counts that start and stop the tape.
    pub thresholds: TapeThresholds,
}

/// What became of the tape when the probe count was looked at.
#[derive(Debug, Clone, Copy, PartialEq, Eq, Structural)]
pub enum AutoDetect {
    /// The tape moves, or rests, as before.
    Unchanged,
    /// The tape was playing and has been stopped; turbo is off.
    Stopped,
    /// The tape was resting and plays now; turbo is on. With `reopen` the
    /// tape was open for writing, and the host has to reopen its file for
    /// reading before the frame goes on.
    Started { reopen: bool },
}

/// What came of writing one frame of MIC OUT pulses to the tape file.
#[derive(Debug, Clone, Copy, PartialEq, Eq, Structural)]
pub enum RecordOutcome {
    /// The pulses were decoded. `chunks` chunks were completed and written;
    /// `decoder_idle` tells that the decoder is not in the middle of one.
    Saved { chunks: usize, decoder_idle: bool },
    /// The file could not be written.
    Failed,
}

/// What the recording path did in a frame.
#[derive(Debug, Clone, Copy, PartialEq, Eq, Structural)]
pub enum Recording {
    /// The recorder is not recording: nothing was done.
    Off,
    /// The recorder records; `chunks` chunks were completed in this frame.
    Saved { chunks: usize },
    /// Writing failed: the recorder has been stopped and turbo is off.
    Failed,
}

/// What is to be done with the EAR IN line before a frame runs.
#[derive(Debug, Clone, Copy, PartialEq, Eq, Structural)]
pub enum EarInFeed {
    /// The tape does not play: the line is left alone.
    Idle,
    /// The tape plays and has pulses left: the host feeds them to the line,
    /// for no more than `frames` frames ahead.
    Feed { frames: usize },
    /// The tape played and has run out: it has been stopped, turbo is off.
    EndOfTape,
}

impl TapeThresholds {
    pub open spec fn spec_default() -> TapeThresholds {
        TapeThresholds { idle: IDLE_THRESHOLD, probe: PROBE_THRESHOLD }
    }

    /// The thresholds leave a gap: a probe count that stops the tape never
    /// starts it again.
    pub open spec fn spec_valid(self) -> bool {
        self.idle <= self.probe
    }

    /// Whether a probe count that stops the tape never starts it again.
    pub fn valid(&self) -> (valid: bool)
        ensures
            valid == self.spec_valid(),
    {
        self.idle <= self.probe
    }
}

impl Default for TapeThresholds {
    fn default() -> (thresholds: TapeThresholds)
        ensures
            thresholds == TapeThresholds::spec_default(),
            thresholds.spec_valid(),
    {
        TapeThresholds { idle: IDLE_THRESHOLD, probe: PROBE_THRESHOLD }
    }
}

impl EmulatorState {
    /// The state a session starts in: no tape, nothing switched on.
    pub open spec fn spec_new() -> EmulatorState {
        EmulatorState {
            tape: Tape::spec_new(),
            prev_ear_in_counter: 0,
            paused: false,
            turbo: false,
            flash_tape: false,
            audible_tape: false,
            sub_joy: 0,
            thresholds: TapeThresholds::spec_default(),
        }
    }

    /// The thresholds of the state leave a gap between stopping the tape
    /// and starting it.
    pub open spec fn spec_valid(self) -> bool {
        self.thresholds.spec_valid()
    }

    /// Whether the thresholds and the switches that only the user sets are
    /// those of `other`.
    pub open spec fn spec_same_settings(self, other: EmulatorState) -> bool {
        &&& self.thresholds == other.thresholds
        &&& self.paused == other.paused
        &&& self.flash_tape == other.flash_tape
        &&& self.audible_tape == other.audible_tape
        &&& self.sub_joy == other.sub_joy
    }

    /// Whether two frames in a row were near silent: the tape plays in turbo
    /// and the probes of both frames stay under the idle threshold.
    pub open spec fn spec_loading_ended(self, count: u32) -> bool {
        &&& self.turbo
        &&& self.tape.spec_is_playing()
        &&& self.prev_ear_in_counter + count < self.thresholds.idle
    }

    /// Whether the program waits for the tape: flash loading is on, a tape
    /// rests in the recorder and the probes exceed the probe threshold.
    pub open spec fn spec_loading_wanted(self, count: u32) -> bool {
        &&& self.flash_tape
        &&& self.tape.spec_is_inserted()
        &&& !self.tape.running
        &&& count > self.thresholds.probe
    }

    /// The state after the probe count of a frame has been looked at.
    pub open spec fn spec_auto_detect(self, count: u32) -> EmulatorState {
        if self.spec_loading_ended(count) {
            EmulatorState {
                tape: self.tape.spec_stop(),
                turbo: false,
                prev_ear_in_counter: count,
                ..self
            }
        } else if self.spec_loading_wanted(count) {
            EmulatorState {
                tape: self.tape.spec_play(),
                turbo: true,
                prev_ear_in_counter: count,
                ..self
            }
        } else {
            EmulatorState { prev_ear_in_counter: count, ..self }
        }
    }

    /// What [`EmulatorState::auto_detect_load_from_tape`] reports.
    pub open spec fn spec_auto_detect_report(self, count: u32) -> AutoDetect {
        if self.spec_loading_ended(count) {
            AutoDetect::Stopped
        } else if self.spec_loading_wanted(count) {
            AutoDetect::Started { reopen: self.tape.tap == Some(TapKind::Writer) }
        } else {
            AutoDetect::Unchanged
        }
    }

    /// The state after one frame of MIC OUT pulses went to the tape file.
    pub open spec fn spec_record(self, outcome: RecordOutcome) -> EmulatorState {
        if !self.tape.spec_is_recording() {
            self
        } else {
            match outcome {
                RecordOutcome::Saved { chunks, decoder_idle } => {
                    if self.turbo || self.flash_tape {
                        EmulatorState { turbo: !decoder_idle, ..self }
                    } else {
                        self
                    }
                },
                RecordOutcome::Failed => {
                    EmulatorState { tape: self.tape.spec_stop(), turbo: false, ..self }
                },
            }
        }
    }

    /// What [`EmulatorState::record_tape_from_mic_out`] reports.
    pub open spec fn spec_record_report(self, outcome: RecordOutcome) -> Recording {
        if !self.tape.spec_is_recording() {
            Recording::Off
        } else {
            match outcome {
                RecordOutcome::Saved { chunks, decoder_idle } => Recording::Saved { chunks },
                RecordOutcome::Failed => Recording::Failed,
            }
        }
    }

    /// The state after the tape was asked for pulses for the coming frame.
    pub open spec fn spec_feed(self, pulses_left: bool) -> EmulatorState {
        if self.tape.spec_is_playing() && !pulses_left {
            EmulatorState { tape: self.tape.spec_stop(), turbo: false, ..self }
        } else {
            self
        }
    }

    /// What [`EmulatorState::feed_ear_in_or_stop_tape`] reports.
    pub open spec fn spec_feed_report(self, pulses_left: bool) -> EarInFeed {
        if !self.tape.spec_is_playing() {
            EarInFeed::Idle
        } else if pulses_left {
            EarInFeed::Feed { frames: EAR_IN_FRAMES }
        } else {
            EarInFeed::EndOfTape
        }
    }

    /// The state after a frame in which the recorder does not record: the
    /// probe count of the frame before is looked at, then the tape is asked
    /// for pulses.
    pub open spec fn spec_frame(self, count: u32, pulses_left: bool) -> EmulatorState {
        self.spec_auto_detect(count).spec_feed(pulses_left)
    }

    /// The state after the frames with the probe counts `counts`, for each
    /// of which the tape has pulses left.
    pub open spec fn spec_frames_fed(self, counts: Seq<u32>) -> EmulatorState
        decreases counts.len(),
    {
        if counts.len() == 0 {
            self
        } else {
            self.spec_frames_fed(counts.drop_last()).spec_frame(counts.last(), true)
        }
    }

    /// The state a session starts in: no tape, nothing switched on.
    pub fn new() -> (state: EmulatorState)
        ensures
            state == EmulatorState::spec_new(),
            state.spec_valid(),
    {
        EmulatorState {
            tape: Tape::new(),
            prev_ear_in_counter: 0,
            paused: false,
            turbo: false,
            flash_tape: false,
            audible_tape: false,
            sub_joy: 0,
            thresholds: TapeThresholds { idle: IDLE_THRESHOLD, probe: PROBE_THRESHOLD },
        }
    }

    /// Looks at `count`, the number of times the EAR IN line was probed
    /// during the frame just completed, and stops or starts the tape.
    ///
    /// * With turbo on and the tape playing, the tape stops and turbo goes
    ///   off when this count and the one before it together stay under the
    ///   idle threshold.
    /// * With flash loading on and a tape resting in the recorder, the tape
    ///   plays and turbo goes on when the count exceeds the probe threshold.
    ///
    /// Either way `count` is remembered for the next frame.
    ///
    /// Where the report asks the host to reopen the tape file and that
    /// fails, the session cannot go on with this tape: the host calls
    /// [`Tape::tap_lost`] and gives the failure to its caller.
    pub fn auto_detect_load_from_tape(&mut self, count: u32) -> (report: AutoDetect)
        ensures
            *final(self) == old(self).spec_auto_detect(count),
            report == old(self).spec_auto_detect_report(count),
    {
        let quiet: bool = (self.prev_ear_in_counter as u64) + (count as u64)
            < (self.thresholds.idle as u64);
        let report: AutoDetect = if self.turbo && self.tape.is_playing() && quiet {
            self.tape.stop();
            self.turbo = false;
            AutoDetect::Stopped
        } else if self.flash_tape && self.tape.is_inserted() && !self.tape.running
            && count > self.thresholds.probe {
            let reopen: bool = self.tape.play();
            self.turbo = true;
            AutoDetect::Started { reopen }
        } else {
            AutoDetect::Unchanged
        };
        self.prev_ear_in_counter = count;
        report
    }

    /// Takes in what came of writing the MIC OUT pulses of the frame just
    /// completed to the tape file. The host writes them only while the
    /// recorder records; while it does not, nothing changes here.
    ///
    /// * After a good write, with turbo or flash saving on, turbo stays on
    ///   exactly while the pulse decoder is in the middle of a chunk.
    /// * After a failed write the recorder is stopped and turbo is off.
    pub fn record_tape_from_mic_out(&mut self, outcome: RecordOutcome) -> (report: Recording)
        ensures
            *final(self) == old(self).spec_record(outcome),
            report == old(self).spec_record_report(outcome),
    {
        if !self.tape.is_recording() {
            return Recording::Off;
        }
        match outcome {
            RecordOutcome::Saved { chunks, decoder_idle } => {
                if self.turbo || self.flash_tape {
                    self.turbo = !decoder_idle;
                }
                Recording::Saved { chunks }
            },
            RecordOutcome::Failed => {
                self.tape.stop();
                self.turbo = false;
                Recording::Failed
            },
        }
    }

    /// Decides what the EAR IN line gets before the coming frame runs.
    /// `pulses_left` tells whether the playing tape has a pulse left; it is
    /// not looked at while the tape does not play.
    ///
    /// A playing tape without a pulse left has come to its end: it is stopped
    /// and turbo goes off.
    pub fn feed_ear_in_or_stop_tape(&mut self, pulses_left: bool) -> (report: EarInFeed)
        ensures
            *final(self) == old(self).spec_feed(pulses_left),
            report == old(self).spec_feed_report(pulses_left),
    {
        if !self.tape.is_playing() {
            EarInFeed::Idle
        } else if pulses_left {
            EarInFeed::Feed { frames: EAR_IN_FRAMES }
        } else {
            self.tape.stop();
            self.turbo = false;
            EarInFeed::EndOfTape
        }
    }

    /// Puts a tape in, open for reading, and switches on both the tape's
    /// sound and flash loading. The motor stays as it is.
    pub fn insert_tape(&mut self) -> (previous: Option<TapKind>)
        ensures
            *final(self) == (EmulatorState {
                tape: Tape { running: old(self).tape.running, tap: Some(TapKind::Reader) },
                audible_tape: true,
                flash_tape: true,
                ..*old(self)
            }),
            previous == old(self).tape.tap,
    {
        let previous: Option<TapKind> = self.tape.insert(TapKind::Reader);
        self.audible_tape = true;
        self.flash_tape = true;
        previous
    }
}

impl Default for EmulatorState {
    fn default() -> (state: EmulatorState)
        ensures
            state == EmulatorState::spec_new(),
    {
        EmulatorState::new()
    }
}

/// A tape that rests in the recorder starts to play, and turbo goes on, as
/// soon as a frame probes the EAR IN line more often than the probe
/// threshold while flash loading is on.
pub proof fn lemma_auto_start(state: EmulatorState, count: u32)
    requires
        state.flash_tape,
        state.tape.spec_is_inserted(),
        !state.tape.running,
        count > state.thresholds.probe,
    ensures
        state.spec_auto_detect(count).tape.spec_is_playing(),
        state.spec_auto_detect(count).turbo,
        state.spec_auto_detect_report(count) is Started,
{
}

/// A tape that plays in turbo is stopped, and turbo goes off, as soon as two
/// frames in a row together probe the EAR IN line fewer times than the idle
/// threshold, however the probes are spread over the two.
pub proof fn lemma_auto_stop(state: EmulatorState, first: u32, second: u32)
    requires
        state.spec_valid(),
        state.turbo,
        state.tape.spec_is_playing(),
        first + second < state.thresholds.idle,
    ensures
        ({
            let after = state.spec_auto_detect(first).spec_auto_detect(second);
            &&& !after.turbo
            &&& after.tape.spec_is_inserted()
            &&& !after.tape.running
        }),
{
}

/// Turbo never goes on by the probe count alone: flash loading has to be on.
pub proof fn lemma_turbo_needs_flash(state: EmulatorState, count: u32)
    requires
        !state.turbo,
        !state.flash_tape,
    ensures
        !state.spec_auto_detect(count).turbo,
        state.spec_auto_detect(count).tape == state.tape,
{
}

/// At the end of the tape turbo is off, whatever it was.
pub proof fn lemma_end_of_tape_clears_turbo(state: EmulatorState)
    requires
        state.tape.spec_is_playing(),
    ensures
        !state.spec_feed(false).turbo,
        !state.spec_feed(false).tape.running,
        state.spec_feed_report(false) == EarInFeed::EndOfTape,
{
}

/// A frame that finds the playing tape at its end leaves the tape stopped
/// and turbo off, whatever the probe count was.
pub proof fn lemma_frame_at_end_of_tape(state: EmulatorState, count: u32)
    requires
        state.tape.spec_is_playing(),
    ensures
        !state.spec_frame(count, false).turbo,
        !state.spec_frame(count, false).tape.running,
        state.spec_frame(count, false).tape.tap == state.tape.tap,
{
}

/// Loading from a tape that rests in the recorder, with flash loading on:
/// the first frame whose probe count exceeds the probe threshold starts the
/// tape and turbo, and both stay on for as long as the tape has pulses left
/// and no two frames in a row are near silent.
pub proof fn lemma_loading_holds_turbo(state: EmulatorState, counts: Seq<u32>)
    requires
        state.flash_tape,
        state.tape.tap == Some(TapKind::Reader),
        !state.tape.running,
        counts.len() > 0,
        counts[0] > state.thresholds.probe,
        forall|i: int|
            0 < i < counts.len() ==> counts[i - 1] + #[trigger] counts[i] >= state.thresholds.idle,
    ensures
        state.spec_frames_fed(counts).turbo,
        state.spec_frames_fed(counts).tape.spec_is_playing(),
        state.spec_frames_fed(counts).prev_ear_in_counter == counts.last(),
        state.spec_frames_fed(counts).thresholds == state.thresholds,
    decreases counts.len(),
{
    if counts.len() == 1 {
        assert(counts.drop_last().len() == 0);
        assert(state.spec_frames_fed(counts.drop_last()) == state);
    } else {
        let front = counts.drop_last();
        assert(front[0] == counts[0]);
        assert forall|i: int| 0 < i < front.len() implies front[i - 1] + #[trigger] front[i]
            >= state.thresholds.idle by {
            assert(front[i] == counts[i]);
            assert(front[i - 1] == counts[i - 1]);
        }
        lemma_loading_holds_turbo(state, front);
        assert(front.last() == counts[counts.len() - 2]);
        assert(counts[counts.len() - 2] + counts[counts.len() - 1] >= state.thresholds.idle);
    }
}

/// Loading a tape to its end: turbo goes on with the first frame that waits
/// for the tape and off with the frame that finds the tape at its end.
pub proof fn lemma_loading_to_the_end(state: EmulatorState, counts: Seq<u32>, last: u32)
    requires
        state.flash_tape,
        state.tape.tap == Some(TapKind::Reader),
        !state.tape.running,
        counts.len() > 0,
        counts[0] > state.thresholds.probe,
        forall|i: int|
            0 < i < counts.len() ==> counts[i - 1] + #[trigger] counts[i] >= state.thresholds.idle,
    ensures
        state.spec_frames_fed(counts.take(1)).turbo,
        !state.spec_frames_fed(counts).spec_frame(last, false).turbo,
        !state.spec_frames_fed(counts).spec_frame(last, false).tape.running,
{
    let first = counts.take(1);
    assert(first[0] == counts[0]);
    lemma_loading_holds_turbo(state, first);
    lemma_loading_holds_turbo(state, counts);
    lemma_frame_at_end_of_tape(state.spec_frames_fed(counts), last);
}

/// The rules of the tape never touch the thresholds, nor the switches that
/// only the user sets: pause, flash loading, the tape's sound and the
/// joystick.
pub proof fn lemma_rules_keep_the_settings(
    state: EmulatorState,
    count: u32,
    outcome: RecordOutcome,
    pulses_left: bool,
)
    ensures
        state.spec_auto_detect(count).spec_same_settings(state),
        state.spec_record(outcome).spec_same_settings(state),
        state.spec_feed(pulses_left).spec_same_settings(state),
        state.spec_valid() ==> state.spec_auto_detect(count).spec_valid() && state.spec_record(
            outcome,
        ).spec_valid() && state.spec_feed(pulses_left).spec_valid(),
{
}

} // verus!
