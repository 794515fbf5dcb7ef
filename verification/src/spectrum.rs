//! A running machine, and how one frame of it is run.
//!
//! The chipset executes the frame; the tape file gives and takes the pulses.
//! Both belong to the host. What is done in which order, and what each outcome
//! means for the session, is decided here: the host asks for the first task
//! of a frame, performs it, hands in the answer and gets the next task, until
//! the frame is finished.
use vstd::prelude::*;
use crate::state::{AutoDetect, EarInFeed, EmulatorState, RecordOutcome, Recording};

verus! {

/// A count of T-states: the chipset's clock ticks.
pub type FTs = i32;

/// An emulated computer with the state of the program around it.
///
/// `C` is the CPU and `U` the chipset with its memory and devices. Both are
/// the host's to step; nothing here looks into them.
pub struct ZxSpectrum<C, U> {
    pub cpu: C,
    pub ula: U,
    /// A non-maskable interrupt waits to be triggered.
    pub nmi_request: bool,
    /// A reset waits to be made; a hard one if `Some(true)`.
    pub reset_request: Option<bool>,
    /// The state of the emulator program.
    pub state: EmulatorState,
}

/// What the host has to do next in a frame, or how the frame ended.
#[derive(Debug, Clone, Copy, PartialEq, Eq, Structural)]
pub enum FrameTask {
    /// Decode the MIC OUT pulses of the frame before and write them to the
    /// tape file. Answer with [`FrameAnswer::Recorded`].
    WriteMicOut,
    /// Read how often the EAR IN line was probed in the frame before.
    /// Answer with [`FrameAnswer::Count`].
    ReadEarInCount,
    /// Finish the chunk being written and reopen the tape file for reading
    /// from its start. Answer with [`FrameAnswer::Flag`]: was it done?
    ReopenTape,
    /// Have the chipset clear what it buffered for the frame before, then
    /// read its T-state counter. Answer with [`FrameAnswer::Tick`].
    EnsureNextFrame,
    /// Look whether the tape has a pulse left. Answer with
    /// [`FrameAnswer::Flag`]: has it?
    PeekTape,
    /// Feed the EAR IN line with the pulses of the tape, for no more than
    /// `frames` frames ahead. Answer with [`FrameAnswer::Done`].
    FeedEarIn { frames: usize },
    /// Trigger a non-maskable interrupt. Answer with [`FrameAnswer::Flag`]:
    /// was it accepted?
    TriggerNmi,
    /// Reset the computer. Answer with [`FrameAnswer::Done`].
    Reset { hard: bool },
    /// Execute the frame, then read the T-state counter. Answer with
    /// [`FrameAnswer::Tick`].
    ExecuteFrame,
    /// The frame has run.
    Finished(FrameReport),
    /// The tape file could not be reopened and the tape is lost. The frame
    /// has not run; the failure is the caller's to deal with.
    TapeLost,
}

/// What the host found when it performed a task.
#[derive(Debug, Clone, Copy, PartialEq, Eq, Structural)]
pub enum FrameAnswer {
    /// The task was performed and leaves nothing to tell.
    Done,
    /// The answer to a yes-or-no task.
    Flag(bool),
    /// A probe count.
    Count(u32),
    /// A reading of the T-state counter.
    Tick(FTs),
    /// What came of writing to the tape file.
    Recorded(RecordOutcome),
}

/// How a frame went.
#[derive(Debug, Clone, Copy, PartialEq, Eq, Structural)]
pub struct FrameReport {
    /// The T-states the frame took: the counter after the frame less the
    /// counter before it.
    pub fts_delta: i64,
    /// Whether the tape's motor or turbo is not as it was before the frame.
    pub state_changed: bool,
    /// Whether a tape that was running before the frame came to its end.
    pub end_of_tape: bool,
    /// What the recording path did.
    pub recording: Recording,
}

/// A frame in progress.
#[derive(Debug, Clone, Copy, PartialEq, Eq, Structural)]
pub struct FrameRun {
    /// The task the host has been given last.
    pub task: FrameTask,
    /// Whether turbo was on before the frame.
    pub turbo: bool,
    /// Whether the tape's motor was on before the frame.
    pub running: bool,
    /// The T-state counter before the frame was executed.
    pub fts_start: FTs,
    /// Whether the tape came to its end in this frame.
    pub end_of_tape: bool,
    /// What the recording path did in this frame.
    pub recording: Recording,
}

impl FrameRun {
    /// Whether the frame is over, one way or the other.
    pub open spec fn spec_is_over(self) -> bool {
        self.task is Finished || self.task is TapeLost
    }

    /// Whether the frame is over, one way or the other.
    pub fn is_over(&self) -> (over: bool)
        ensures
            over == self.spec_is_over(),
    {
        match self.task {
            FrameTask::Finished(_) => true,
            FrameTask::TapeLost => true,
            _ => false,
        }
    }

    /// How the frame went, once it has run.
    pub fn report(&self) -> (report: Option<FrameReport>)
        ensures
            report == (match self.task {
                FrameTask::Finished(r) => Some(r),
                _ => None,
            }),
    {
        match self.task {
            FrameTask::Finished(r) => Some(r),
            _ => None,
        }
    }
}

impl FrameTask {
    /// How many answers the frame can still take at most, this one counted.
    pub open spec fn spec_rank(self) -> nat {
        match self {
            FrameTask::WriteMicOut => 8,
            FrameTask::ReadEarInCount => 8,
            FrameTask::ReopenTape => 7,
            FrameTask::EnsureNextFrame => 6,
            FrameTask::PeekTape => 5,
            FrameTask::FeedEarIn { frames } => 4,
            FrameTask::TriggerNmi => 3,
            FrameTask::Reset { hard } => 2,
            FrameTask::ExecuteFrame => 1,
            FrameTask::Finished(_) => 0,
            FrameTask::TapeLost => 0,
        }
    }

    /// Whether `answer` is of the kind that the task asks for.
    pub open spec fn spec_asks_for(self, answer: FrameAnswer) -> bool {
        match self {
            FrameTask::WriteMicOut => answer is Recorded,
            FrameTask::ReadEarInCount => answer is Count,
            FrameTask::ReopenTape => answer is Flag,
            FrameTask::EnsureNextFrame => answer is Tick,
            FrameTask::PeekTape => answer is Flag,
            FrameTask::FeedEarIn { frames } => answer is Done,
            FrameTask::TriggerNmi => answer is Flag,
            FrameTask::Reset { hard } => answer is Done,
            FrameTask::ExecuteFrame => answer is Tick,
            FrameTask::Finished(_) => false,
            FrameTask::TapeLost => false,
        }
    }

    /// Whether `answer` is of the kind that the task asks for.
    pub fn asks_for(&self, answer: &FrameAnswer) -> (asked: bool)
        ensures
            asked == self.spec_asks_for(*answer),
    {
        match (self, answer) {
            (FrameTask::WriteMicOut, FrameAnswer::Recorded(_)) => true,
            (FrameTask::ReadEarInCount, FrameAnswer::Count(_)) => true,
            (FrameTask::ReopenTape, FrameAnswer::Flag(_)) => true,
            (FrameTask::EnsureNextFrame, FrameAnswer::Tick(_)) => true,
            (FrameTask::PeekTape, FrameAnswer::Flag(_)) => true,
            (FrameTask::FeedEarIn { frames: _ }, FrameAnswer::Done) => true,
            (FrameTask::TriggerNmi, FrameAnswer::Flag(_)) => true,
            (FrameTask::Reset { hard: _ }, FrameAnswer::Done) => true,
            (FrameTask::ExecuteFrame, FrameAnswer::Tick(_)) => true,
            _ => false,
        }
    }
}

impl<C, U> ZxSpectrum<C, U> {
    /// The frame as it stands before its first task, with that task.
    ///
    /// Recording has precedence: while the recorder records, the frame
    /// starts by writing to the tape; otherwise by reading the probe count.
    pub open spec fn spec_begin_frame(self) -> FrameRun {
        FrameRun {
            task: if self.state.tape.spec_is_recording() {
                FrameTask::WriteMicOut
            } else {
                FrameTask::ReadEarInCount
            },
            turbo: self.state.turbo,
            running: self.state.tape.running,
            fts_start: 0,
            end_of_tape: false,
            recording: Recording::Off,
        }
    }

    /// The task that follows once the tape has been dealt with: the pending
    /// interrupt, else the pending reset, else the frame itself.
    pub open spec fn spec_requests_task(self) -> FrameTask {
        if self.nmi_request {
            FrameTask::TriggerNmi
        } else {
            self.spec_reset_task()
        }
    }

    /// The task that follows once the interrupt has been dealt with: the
    /// pending reset, else the frame itself.
    pub open spec fn spec_reset_task(self) -> FrameTask {
        match self.reset_request {
            Some(hard) => FrameTask::Reset { hard },
            None => FrameTask::ExecuteFrame,
        }
    }

    /// The machine after `answer` was given to the task of `run`.
    pub open spec fn spec_advance(self, run: FrameRun, answer: FrameAnswer) -> Self {
        match (run.task, answer) {
            (FrameTask::WriteMicOut, FrameAnswer::Recorded(outcome)) => ZxSpectrum {
                state: self.state.spec_record(outcome),
                ..self
            },
            (FrameTask::ReadEarInCount, FrameAnswer::Count(count)) => ZxSpectrum {
                state: self.state.spec_auto_detect(count),
                ..self
            },
            (FrameTask::ReopenTape, FrameAnswer::Flag(false)) => ZxSpectrum {
                state: EmulatorState {
                    tape: crate::tape::Tape { running: self.state.tape.running, tap: None },
                    ..self.state
                },
                ..self
            },
            (FrameTask::PeekTape, FrameAnswer::Flag(pulses_left)) => ZxSpectrum {
                state: self.state.spec_feed(pulses_left),
                ..self
            },
            (FrameTask::TriggerNmi, FrameAnswer::Flag(true)) => ZxSpectrum {
                nmi_request: false,
                ..self
            },
            (FrameTask::Reset { hard }, FrameAnswer::Done) => ZxSpectrum {
                reset_request: None,
                ..self
            },
            _ => self,
        }
    }

    /// The frame after `answer` was given to the task of `run`. An answer of
    /// a kind the task does not ask for leaves the frame as it is.
    pub open spec fn spec_advance_run(self, run: FrameRun, answer: FrameAnswer) -> FrameRun {
        match (run.task, answer) {
            (FrameTask::WriteMicOut, FrameAnswer::Recorded(outcome)) => FrameRun {
                task: FrameTask::EnsureNextFrame,
                recording: self.state.spec_record_report(outcome),
                ..run
            },
            (FrameTask::ReadEarInCount, FrameAnswer::Count(count)) => FrameRun {
                task: if self.state.spec_auto_detect_report(count)
                    == (AutoDetect::Started { reopen: true }) {
                    FrameTask::ReopenTape
                } else {
                    FrameTask::EnsureNextFrame
                },
                ..run
            },
            (FrameTask::ReopenTape, FrameAnswer::Flag(done)) => FrameRun {
                task: if done {
                    FrameTask::EnsureNextFrame
                } else {
                    FrameTask::TapeLost
                },
                ..run
            },
            (FrameTask::EnsureNextFrame, FrameAnswer::Tick(ts)) => FrameRun {
                task: if self.state.tape.spec_is_playing() {
                    FrameTask::PeekTape
                } else {
                    self.spec_requests_task()
                },
                fts_start: ts,
                ..run
            },
            (FrameTask::PeekTape, FrameAnswer::Flag(pulses_left)) => {
                match self.state.spec_feed_report(pulses_left) {
                    EarInFeed::Feed { frames } => FrameRun {
                        task: FrameTask::FeedEarIn { frames },
                        ..run
                    },
                    EarInFeed::EndOfTape => FrameRun {
                        task: self.spec_requests_task(),
                        end_of_tape: run.running,
                        ..run
                    },
                    EarInFeed::Idle => FrameRun { task: self.spec_requests_task(), ..run },
                }
            },
            (FrameTask::FeedEarIn { frames }, FrameAnswer::Done) => FrameRun {
                task: self.spec_requests_task(),
                ..run
            },
            (FrameTask::TriggerNmi, FrameAnswer::Flag(accepted)) => FrameRun {
                task: self.spec_reset_task(),
                ..run
            },
            (FrameTask::Reset { hard }, FrameAnswer::Done) => FrameRun {
                task: FrameTask::ExecuteFrame,
                ..run
            },
            (FrameTask::ExecuteFrame, FrameAnswer::Tick(ts)) => FrameRun {
                task: FrameTask::Finished(
                    FrameReport {
                        fts_delta: (ts - run.fts_start) as i64,
                        state_changed: run.running != self.state.tape.running
                            || run.turbo != self.state.turbo,
                        end_of_tape: run.end_of_tape,
                        recording: run.recording,
                    },
                ),
                ..run
            },
            _ => run,
        }
    }

    /// A machine around `cpu` and `ula`, with nothing pending and the
    /// program's state as a session starts with it.
    pub fn new(cpu: C, ula: U) -> (spectrum: Self)
        ensures
            spectrum.cpu == cpu,
            spectrum.ula == ula,
            !spectrum.nmi_request,
            spectrum.reset_request is None,
            spectrum.state == EmulatorState::spec_new(),
    {
        ZxSpectrum { cpu, ula, nmi_request: false, reset_request: None, state: EmulatorState::new() }
    }

    /// Asks for a reset at the start of the next frame; a later call
    /// supersedes an earlier one.
    pub fn reset(&mut self, hard: bool)
        ensures
            *final(self) == (ZxSpectrum { reset_request: Some(hard), ..*old(self) }),
    {
        self.reset_request = Some(hard);
    }

    /// Asks for a non-maskable interrupt at the start of the next frame. The
    /// request stands until the CPU accepts it.
    pub fn trigger_nmi(&mut self)
        ensures
            *final(self) == (ZxSpectrum { nmi_request: true, ..*old(self) }),
    {
        self.nmi_request = true;
    }

    /// Starts a frame: notes the tape's motor and turbo as they are, and
    /// gives the host its first task.
    pub fn run_frame(&self) -> (run: FrameRun)
        ensures
            run == self.spec_begin_frame(),
    {
        FrameRun {
            task: if self.state.tape.is_recording() {
                FrameTask::WriteMicOut
            } else {
                FrameTask::ReadEarInCount
            },
            turbo: self.state.turbo,
            running: self.state.tape.running,
            fts_start: 0,
            end_of_tape: false,
            recording: Recording::Off,
        }
    }

    fn requests_task(&self) -> (task: FrameTask)
        ensures
            task == self.spec_requests_task(),
    {
        if self.nmi_request {
            FrameTask::TriggerNmi
        } else {
            self.reset_task()
        }
    }

    fn reset_task(&self) -> (task: FrameTask)
        ensures
            task == self.spec_reset_task(),
    {
        match self.reset_request {
            Some(hard) => FrameTask::Reset { hard },
            None => FrameTask::ExecuteFrame,
        }
    }

    /// Takes the host's `answer` to the task of `run` and gives the next
    /// task, which is also left in `run.task`.
    ///
    /// The order of a frame is: the tape is written to, or else the probe
    /// count is looked at, which may start or stop the tape; the chipset is
    /// readied; a playing tape feeds the EAR IN line or is found at its end;
    /// a waiting interrupt is triggered and stays waiting unless accepted; a
    /// waiting reset is made; the frame is executed. An answer of a kind the
    /// task does not ask for changes nothing and gets the same task again.
    pub fn advance(&mut self, run: &mut FrameRun, answer: FrameAnswer) -> (task: FrameTask)
        ensures
            *final(self) == old(self).spec_advance(*old(run), answer),
            *final(run) == old(self).spec_advance_run(*old(run), answer),
            task == final(run).task,
    {
        match (run.task, answer) {
            (FrameTask::WriteMicOut, FrameAnswer::Recorded(outcome)) => {
                run.recording = self.state.record_tape_from_mic_out(outcome);
                run.task = FrameTask::EnsureNextFrame;
            },
            (FrameTask::ReadEarInCount, FrameAnswer::Count(count)) => {
                run.task = match self.state.auto_detect_load_from_tape(count) {
                    AutoDetect::Started { reopen: true } => FrameTask::ReopenTape,
                    _ => FrameTask::EnsureNextFrame,
                };
            },
            (FrameTask::ReopenTape, FrameAnswer::Flag(done)) => {
                if done {
                    run.task = FrameTask::EnsureNextFrame;
                } else {
                    self.state.tape.tap_lost();
                    run.task = FrameTask::TapeLost;
                }
            },
            (FrameTask::EnsureNextFrame, FrameAnswer::Tick(ts)) => {
                run.fts_start = ts;
                run.task = if self.state.tape.is_playing() {
                    FrameTask::PeekTape
                } else {
                    self.requests_task()
                };
            },
            (FrameTask::PeekTape, FrameAnswer::Flag(pulses_left)) => {
                // the interrupt and the reset do not depend on the tape
                let next: FrameTask = self.requests_task();
                match self.state.feed_ear_in_or_stop_tape(pulses_left) {
                    EarInFeed::Feed { frames } => {
                        run.task = FrameTask::FeedEarIn { frames };
                    },
                    EarInFeed::EndOfTape => {
                        // only told when the tape was running before the frame
                        run.end_of_tape = run.running;
                        run.task = next;
                    },
                    EarInFeed::Idle => {
                        run.task = next;
                    },
                }
            },
            (FrameTask::FeedEarIn { frames: _ }, FrameAnswer::Done) => {
                run.task = self.requests_task();
            },
            (FrameTask::TriggerNmi, FrameAnswer::Flag(accepted)) => {
                run.task = self.reset_task();
                if accepted {
                    self.nmi_request = false;
                }
            },
            (FrameTask::Reset { hard: _ }, FrameAnswer::Done) => {
                self.reset_request = None;
                run.task = FrameTask::ExecuteFrame;
            },
            (FrameTask::ExecuteFrame, FrameAnswer::Tick(ts)) => {
                run.task = FrameTask::Finished(
                    FrameReport {
                        fts_delta: ts as i64 - run.fts_start as i64,
                        state_changed: run.running != self.state.tape.running
                            || run.turbo != self.state.turbo,
                        end_of_tape: run.end_of_tape,
                        recording: run.recording,
                    },
                );
            },
            _ => {},
        }
        run.task
    }
}

impl<C, U> ZxSpectrum<C, U> {
    /// The machine after a frame was started and the host gave `answers`,
    /// one after the other.
    pub open spec fn spec_after_answers(self, answers: Seq<FrameAnswer>) -> Self
        decreases answers.len(),
    {
        if answers.len() == 0 {
            self
        } else {
            self.spec_after_answers(answers.drop_last()).spec_advance(
                self.spec_frame_after_answers(answers.drop_last()),
                answers.last(),
            )
        }
    }

    /// The frame after it was started and the host gave `answers`, one after
    /// the other.
    pub open spec fn spec_frame_after_answers(self, answers: Seq<FrameAnswer>) -> FrameRun
        decreases answers.len(),
    {
        if answers.len() == 0 {
            self.spec_begin_frame()
        } else {
            self.spec_after_answers(answers.drop_last()).spec_advance_run(
                self.spec_frame_after_answers(answers.drop_last()),
                answers.last(),
            )
        }
    }
}

/// An answer of the kind asked for brings the frame nearer to its end; any
/// other answer changes nothing.
pub proof fn lemma_frame_advances<C, U>(
    spectrum: ZxSpectrum<C, U>,
    run: FrameRun,
    answer: FrameAnswer,
)
    ensures
        run.task.spec_asks_for(answer) ==> spectrum.spec_advance_run(run, answer).task.spec_rank()
            < run.task.spec_rank(),
        !run.task.spec_asks_for(answer) ==> spectrum.spec_advance_run(run, answer) == run
            && spectrum.spec_advance(run, answer) == spectrum,
{
}

/// A frame that is over stays as it is, whatever the host answers.
pub proof fn lemma_frame_over_is_final<C, U>(
    spectrum: ZxSpectrum<C, U>,
    run: FrameRun,
    answer: FrameAnswer,
)
    requires
        run.spec_is_over(),
    ensures
        spectrum.spec_advance_run(run, answer) == run,
        spectrum.spec_advance(run, answer) == spectrum,
{
}

/// A frame never touches the CPU or the chipset, and it keeps what it noted
/// at its start: whether the motor and turbo were on.
pub proof fn lemma_frame_keeps_its_start<C, U>(
    spectrum: ZxSpectrum<C, U>,
    answers: Seq<FrameAnswer>,
)
    ensures
        spectrum.spec_after_answers(answers).cpu == spectrum.cpu,
        spectrum.spec_after_answers(answers).ula == spectrum.ula,
        spectrum.spec_frame_after_answers(answers).turbo == spectrum.state.turbo,
        spectrum.spec_frame_after_answers(answers).running == spectrum.state.tape.running,
    decreases answers.len(),
{
    if answers.len() > 0 {
        lemma_frame_keeps_its_start(spectrum, answers.drop_last());
    }
}

/// The frame is over after nine answers of the kind asked for, at the
/// latest.
pub proof fn lemma_frame_ends<C, U>(spectrum: ZxSpectrum<C, U>, answers: Seq<FrameAnswer>)
    requires
        forall|i: int|
            0 <= i < answers.len() ==> (#[trigger] spectrum.spec_frame_after_answers(
                answers.take(i),
            )).task.spec_asks_for(answers[i]),
    ensures
        spectrum.spec_frame_after_answers(answers).task.spec_rank() + answers.len() <= 8,
    decreases answers.len(),
{
    if answers.len() > 0 {
        let front = answers.drop_last();
        assert forall|i: int| 0 <= i < front.len() implies (
        #[trigger] spectrum.spec_frame_after_answers(front.take(i))).task.spec_asks_for(
            front[i],
        ) by {
            assert(front.take(i) == answers.take(i));
            assert(front[i] == answers[i]);
        }
        lemma_frame_ends(spectrum, front);
        assert(answers.take(front.len() as int) == front);
        assert(spectrum.spec_frame_after_answers(front).task.spec_asks_for(answers.last()));
        lemma_frame_advances(
            spectrum.spec_after_answers(front),
            spectrum.spec_frame_after_answers(front),
            answers.last(),
        );
    }
}

/// A frame that has run reports a change of state exactly if the tape's
/// motor or turbo is not as it was when the frame was started.
pub proof fn lemma_state_change_is_reported<C, U>(
    spectrum: ZxSpectrum<C, U>,
    answers: Seq<FrameAnswer>,
)
    requires
        spectrum.spec_frame_after_answers(answers).task is Finished,
    ensures
        ({
            let after = spectrum.spec_after_answers(answers);
            let report = spectrum.spec_frame_after_answers(answers).task->Finished_0;
            report.state_changed == (after.state.tape.running != spectrum.state.tape.running
                || after.state.turbo != spectrum.state.turbo)
        }),
    decreases answers.len(),
{
    if answers.len() > 0 {
        let front = answers.drop_last();
        let before = spectrum.spec_after_answers(front);
        let run = spectrum.spec_frame_after_answers(front);
        lemma_frame_keeps_its_start(spectrum, front);
        if run.task is Finished {
            lemma_state_change_is_reported(spectrum, front);
            lemma_frame_over_is_final(before, run, answers.last());
        }
    }
}

/// The T-states that a frame reports are those that the counter went on by
/// while the frame was executed.
pub proof fn lemma_frame_reports_ticks<C, U>(
    spectrum: ZxSpectrum<C, U>,
    run: FrameRun,
    fts_end: FTs,
)
    requires
        run.task == FrameTask::ExecuteFrame,
    ensures
        spectrum.spec_advance_run(run, FrameAnswer::Tick(fts_end)).task is Finished,
        spectrum.spec_advance_run(run, FrameAnswer::Tick(fts_end)).task->Finished_0.fts_delta
            == fts_end - run.fts_start,
{
}

/// Once the tape has been dealt with, a frame leaves the state of the
/// program as it is: the interrupt, the reset and the execution of the frame
/// only change what waits.
pub proof fn lemma_late_tasks_keep_state<C, U>(
    spectrum: ZxSpectrum<C, U>,
    run: FrameRun,
    answer: FrameAnswer,
)
    requires
        run.task.spec_rank() <= 4,
    ensures
        spectrum.spec_advance(run, answer).state == spectrum.state,
        spectrum.spec_advance_run(run, answer).task.spec_rank() <= 4,
{
}

/// The state of the program after a frame is what it was when the tape had
/// been dealt with, whatever the host answers from there on.
pub proof fn lemma_late_answers_keep_state<C, U>(
    spectrum: ZxSpectrum<C, U>,
    early: Seq<FrameAnswer>,
    late: Seq<FrameAnswer>,
)
    requires
        spectrum.spec_frame_after_answers(early).task.spec_rank() <= 4,
    ensures
        spectrum.spec_after_answers(early + late).state == spectrum.spec_after_answers(
            early,
        ).state,
        spectrum.spec_frame_after_answers(early + late).task.spec_rank() <= 4,
    decreases late.len(),
{
    if late.len() == 0 {
        assert(early + late == early);
    } else {
        let front = late.drop_last();
        lemma_late_answers_keep_state(spectrum, early, front);
        assert((early + late).drop_last() == early + front);
        assert((early + late).last() == late.last());
        lemma_late_tasks_keep_state(
            spectrum.spec_after_answers(early + front),
            spectrum.spec_frame_after_answers(early + front),
            late.last(),
        );
    }
}

/// A frame that finds the program waiting for the tape starts the tape in
/// time for itself.
///
/// With flash loading on and a tape open for reading at rest, a frame whose
/// probe count exceeds the probe threshold of the state has the tape play
/// and turbo on, and has the EAR IN line fed from the tape before it is
/// executed. Both stay so to the end of the frame, whatever waits to be done
/// and whatever the host answers, and the frame that has run reports a
/// change of state.
pub proof fn lemma_frame_starts_loading<C, U>(
    spectrum: ZxSpectrum<C, U>,
    count: u32,
    fts: FTs,
    rest: Seq<FrameAnswer>,
)
    requires
        spectrum.state.flash_tape,
        spectrum.state.tape.tap == Some(crate::tape::TapKind::Reader),
        !spectrum.state.tape.running,
        count > spectrum.state.thresholds.probe,
    ensures
        ({
            let probed = seq![FrameAnswer::Count(count)];
            let peeked = seq![
                FrameAnswer::Count(count),
                FrameAnswer::Tick(fts),
                FrameAnswer::Flag(true),
            ];
            let answers = peeked + seq![FrameAnswer::Done] + rest;
            &&& spectrum.spec_begin_frame().task == FrameTask::ReadEarInCount
            &&& spectrum.spec_frame_after_answers(probed).task == FrameTask::EnsureNextFrame
            &&& spectrum.spec_frame_after_answers(peeked).task == (FrameTask::FeedEarIn {
                frames: crate::state::EAR_IN_FRAMES,
            })
            &&& spectrum.spec_after_answers(answers).state.turbo
            &&& spectrum.spec_after_answers(answers).state.tape.spec_is_playing()
            &&& spectrum.spec_frame_after_answers(answers).task is Finished
                ==> spectrum.spec_frame_after_answers(
                answers,
            ).task->Finished_0.state_changed
        }),
{
    let a1 = FrameAnswer::Count(count);
    let a2 = FrameAnswer::Tick(fts);
    let a3 = FrameAnswer::Flag(true);
    let a4 = FrameAnswer::Done;
    let s0 = Seq::<FrameAnswer>::empty();
    let s1 = seq![a1];
    let s2 = seq![a1, a2];
    let s3 = seq![a1, a2, a3];
    let s4 = s3 + seq![a4];
    assert(s1.drop_last() == s0 && s1.last() == a1);
    assert(s2.drop_last() == s1 && s2.last() == a2);
    assert(s3.drop_last() == s2 && s3.last() == a3);
    assert(s4.drop_last() == s3 && s4.last() == a4);
    // the probe count starts the tape
    assert(spectrum.spec_after_answers(s0) == spectrum);
    assert(spectrum.spec_frame_after_answers(s0) == spectrum.spec_begin_frame());
    let m1 = spectrum.spec_after_answers(s1);
    let r1 = spectrum.spec_frame_after_answers(s1);
    assert(m1 == spectrum.spec_advance(spectrum.spec_begin_frame(), a1));
    assert(r1 == spectrum.spec_advance_run(spectrum.spec_begin_frame(), a1));
    assert(m1.state.turbo && m1.state.tape.spec_is_playing());
    // the chipset is readied, the tape is looked at and found to have pulses
    let m2 = spectrum.spec_after_answers(s2);
    let r2 = spectrum.spec_frame_after_answers(s2);
    assert(m2 == m1.spec_advance(r1, a2));
    assert(r2 == m1.spec_advance_run(r1, a2));
    let m3 = spectrum.spec_after_answers(s3);
    let r3 = spectrum.spec_frame_after_answers(s3);
    assert(m3 == m2.spec_advance(r2, a3));
    assert(r3 == m2.spec_advance_run(r2, a3));
    assert(m3.state.turbo && m3.state.tape.spec_is_playing());
    // the line is fed; nothing that follows touches the state
    let m4 = spectrum.spec_after_answers(s4);
    let r4 = spectrum.spec_frame_after_answers(s4);
    assert(m4 == m3.spec_advance(r3, a4));
    assert(r4 == m3.spec_advance_run(r3, a4));
    lemma_late_answers_keep_state(spectrum, s4, rest);
    let answers = s4 + rest;
    if spectrum.spec_frame_after_answers(answers).task is Finished {
        lemma_state_change_is_reported(spectrum, answers);
    }
}

/// With the thresholds that a session starts with, a frame that follows one
/// with more than a thousand probes starts the resting tape and turbo.
pub proof fn lemma_frame_starts_loading_by_default<C, U>(
    spectrum: ZxSpectrum<C, U>,
    count: u32,
    fts: FTs,
    rest: Seq<FrameAnswer>,
)
    requires
        spectrum.state.flash_tape,
        spectrum.state.tape.tap == Some(crate::tape::TapKind::Reader),
        !spectrum.state.tape.running,
        spectrum.state.thresholds == crate::state::TapeThresholds::spec_default(),
        count > 1000,
    ensures
        ({
            let answers = seq![
                FrameAnswer::Count(count),
                FrameAnswer::Tick(fts),
                FrameAnswer::Flag(true),
            ] + seq![FrameAnswer::Done] + rest;
            &&& spectrum.spec_after_answers(answers).state.turbo
            &&& spectrum.spec_after_answers(answers).state.tape.spec_is_playing()
            &&& spectrum.spec_frame_after_answers(answers).task is Finished
                ==> spectrum.spec_frame_after_answers(
                answers,
            ).task->Finished_0.state_changed
        }),
{
    lemma_frame_starts_loading(spectrum, count, fts, rest);
}

} // verus!
