//! How frames are paced: at the hardware's own rate, as fast as possible, or
//! not at all.
//!
//! The clock, the window and the sound device are the host's. What is asked
//! of them before and after a frame is decided here.
use vstd::prelude::*;
use crate::requests::{MENU_EXIT_ID, MENU_PAUSE_ID};
use crate::spectrum::FrameReport;
use crate::state::EmulatorState;

verus! {

/// How many frames of sound may wait between the emulator and the sound
/// device.
pub const AUDIO_LATENCY: usize = 2;

/// The milliseconds between two looks at the window while paused.
pub const PAUSE_POLL_MILLIS: u64 = 100;

/// How the next frames are to be run.
#[derive(Debug, Clone, Copy, PartialEq, Eq, Structural)]
pub enum FrameMode {
    /// None are run until the user resumes.
    Paused,
    /// As many as fit into the real time of one frame.
    Accelerated,
    /// One, in the real time of one frame.
    Normal,
}

/// What to do after a look at the window while paused.
#[derive(Debug, Clone, Copy, PartialEq, Eq, Structural)]
pub enum PauseStep {
    /// Stay paused: update the window and look again.
    Wait,
    /// Go on with the emulation.
    Resume,
    /// Leave the frame loop.
    Leave,
}

/// What is asked of the sound device.
#[derive(Debug, Clone, Copy, PartialEq, Eq, Structural)]
pub enum AudioSwitch {
    /// Nothing: it plays or rests as before.
    Keep,
    /// To rest.
    Pause,
    /// To play.
    Play,
}

/// What the host does once the frame has run and the menu was answered.
#[derive(Debug, Clone, Copy, PartialEq, Eq, Structural)]
pub struct AfterFrame {
    /// What is asked of the sound device.
    pub audio: AudioSwitch,
    /// Whether the status line is made anew.
    pub refresh_title: bool,
    /// Whether the frame's sound is rendered and sent to the sound device.
    pub render_audio: bool,
    /// Whether the thread waits for the real time of the frame to pass.
    pub synchronize: bool,
}

/// A run of frames in turbo: the frames that fit into the real time of one.
#[derive(Debug, Clone, Copy, PartialEq, Eq, Structural)]
pub struct AcceleratedRun {
    /// The T-states that the frames run so far took.
    pub sum: i64,
    /// Whether any of them changed the tape's motor or turbo.
    pub state_changed: bool,
    /// Whether turbo went off in one of them.
    pub ended: bool,
}

/// One frame of a run in turbo, with what the clock said before it.
pub struct AcceleratedFrame {
    /// Whether the real time of a frame had passed before this frame.
    pub frame_elapsed: bool,
    /// The T-states the frame took.
    pub fts_delta: i64,
    /// Whether the frame changed the tape's motor or turbo.
    pub state_changed: bool,
    /// Whether turbo was on after the frame.
    pub turbo: bool,
}

impl AcceleratedRun {
    /// The run before its first frame.
    pub open spec fn spec_new() -> AcceleratedRun {
        AcceleratedRun { sum: 0, state_changed: false, ended: false }
    }

    /// Whether one more frame is run: the real time of a frame has not
    /// passed, and turbo has not gone off.
    pub open spec fn spec_wants_frame(self, frame_elapsed: bool) -> bool {
        !frame_elapsed && !self.ended
    }

    /// The run with one more frame.
    pub open spec fn spec_record(self, fts_delta: i64, state_changed: bool, turbo: bool) -> AcceleratedRun {
        AcceleratedRun {
            sum: (self.sum + fts_delta) as i64,
            state_changed: self.state_changed || state_changed,
            ended: state_changed && !turbo,
        }
    }

    /// The run after it went on over `frames`, the frames that the host
    /// would run one after the other: it takes them in as long as it wants
    /// one, and stops for good at the first it does not want.
    pub open spec fn spec_run_on(self, frames: Seq<AcceleratedFrame>) -> AcceleratedRun
        decreases frames.len(),
    {
        if frames.len() == 0 || !self.spec_wants_frame(frames[0].frame_elapsed) {
            self
        } else {
            self.spec_record(
                frames[0].fts_delta,
                frames[0].state_changed,
                frames[0].turbo,
            ).spec_run_on(frames.drop_first())
        }
    }

    /// How many of `frames` the run takes in.
    pub open spec fn spec_frames_run(self, frames: Seq<AcceleratedFrame>) -> nat
        decreases frames.len(),
    {
        if frames.len() == 0 || !self.spec_wants_frame(frames[0].frame_elapsed) {
            0
        } else {
            1 + self.spec_record(
                frames[0].fts_delta,
                frames[0].state_changed,
                frames[0].turbo,
            ).spec_frames_run(frames.drop_first())
        }
    }

    /// The run before its first frame.
    pub fn new() -> (run: AcceleratedRun)
        ensures
            run == AcceleratedRun::spec_new(),
    {
        AcceleratedRun { sum: 0, state_changed: false, ended: false }
    }

    /// Whether one more frame is to be run. `frame_elapsed` tells whether the
    /// real time of a frame has passed since the run's deadline was set; the
    /// host asks the clock before each frame.
    ///
    /// A run ends when that time has passed, or when a frame changed the
    /// state and left turbo off.
    pub fn wants_frame(&self, frame_elapsed: bool) -> (wanted: bool)
        ensures
            wanted == self.spec_wants_frame(frame_elapsed),
    {
        !frame_elapsed && !self.ended
    }

    /// Adds a frame that has run to the run. `turbo` tells whether turbo is
    /// on after the frame.
    pub fn record(&mut self, report: &FrameReport, turbo: bool)
        requires
            i64::MIN <= old(self).sum + report.fts_delta <= i64::MAX,
        ensures
            *final(self) == old(self).spec_record(report.fts_delta, report.state_changed, turbo),
            final(self).sum == old(self).sum + report.fts_delta,
    {
        self.sum = self.sum + report.fts_delta;
        self.ended = report.state_changed && !turbo;
        self.state_changed = self.state_changed || report.state_changed;
    }

    /// Adds a frame that has run to the run, unless the sum of T-states
    /// would leave the range of `i64`: then the run is left as it is and
    /// `false` is returned.
    pub fn try_record(&mut self, report: &FrameReport, turbo: bool) -> (recorded: bool)
        ensures
            recorded == (i64::MIN <= old(self).sum + report.fts_delta <= i64::MAX),
            recorded ==> *final(self) == old(self).spec_record(
                report.fts_delta,
                report.state_changed,
                turbo,
            ),
            !recorded ==> *final(self) == *old(self),
    {
        match self.sum.checked_add(report.fts_delta) {
            Some(_) => {
                self.record(report, turbo);
                true
            },
            None => false,
        }
    }

    /// What the run hands back: the T-states of all its frames, and whether
    /// any of them changed the tape's motor or turbo.
    pub fn finish(self) -> (result: (i64, bool))
        ensures
            result == (self.sum, self.state_changed),
    {
        (self.sum, self.state_changed)
    }
}

impl EmulatorState {
    /// How the next frames are to be run: pause goes before turbo.
    pub open spec fn spec_frame_mode(self) -> FrameMode {
        if self.paused {
            FrameMode::Paused
        } else if self.turbo {
            FrameMode::Accelerated
        } else {
            FrameMode::Normal
        }
    }

    /// What the host does once the frame has run and the menu was answered.
    pub open spec fn spec_after_frame(self, state_changed: bool) -> AfterFrame {
        let silent = self.turbo || self.paused;
        AfterFrame {
            audio: if !state_changed {
                AudioSwitch::Keep
            } else if silent {
                AudioSwitch::Pause
            } else {
                AudioSwitch::Play
            },
            refresh_title: state_changed,
            render_audio: !silent,
            synchronize: !self.turbo,
        }
    }

    /// How the next frames are to be run: pause goes before turbo.
    pub fn frame_mode(&self) -> (mode: FrameMode)
        ensures
            mode == self.spec_frame_mode(),
    {
        if self.paused {
            FrameMode::Paused
        } else if self.turbo {
            FrameMode::Accelerated
        } else {
            FrameMode::Normal
        }
    }

    /// Ends a pause. The pause counts as a change of state, and the host
    /// restarts its frame clock from now: paused time is not caught up on.
    pub fn resume(&mut self) -> (state_changed: bool)
        ensures
            *final(self) == (EmulatorState { paused: false, ..*old(self) }),
            state_changed,
    {
        self.paused = false;
        true
    }

    /// What the host does once the frame has run and the menu was answered.
    /// `state_changed` tells whether the frame, or a request of the user
    /// since, changed the state.
    ///
    /// * After a change the sound device is told to rest in turbo or pause
    ///   and to play otherwise, and the status line is made anew.
    /// * Sound is rendered only out of turbo and pause.
    /// * The thread waits for the frame's real time to pass unless in turbo.
    pub fn after_frame(&self, state_changed: bool) -> (plan: AfterFrame)
        ensures
            plan == self.spec_after_frame(state_changed),
    {
        let silent: bool = self.turbo || self.paused;
        AfterFrame {
            audio: if !state_changed {
                AudioSwitch::Keep
            } else if silent {
                AudioSwitch::Pause
            } else {
                AudioSwitch::Play
            },
            refresh_title: state_changed,
            render_audio: !silent,
            synchronize: !self.turbo,
        }
    }
}

/// What to do after a look at the window while paused.
pub open spec fn spec_pause_step(window_open: bool, menu: Option<usize>) -> PauseStep {
    if !window_open {
        PauseStep::Leave
    } else if menu == Some(MENU_PAUSE_ID) {
        PauseStep::Resume
    } else if menu == Some(MENU_EXIT_ID) {
        PauseStep::Leave
    } else {
        PauseStep::Wait
    }
}

/// What to do after a look at the window while paused. `window_open` tells
/// whether the window is open and the user does not ask to leave it; `menu`
/// is the menu item chosen since the last look.
///
/// A closed window and the exit item leave the loop; the pause item resumes;
/// every other item is passed over.
pub fn pause_step(window_open: bool, menu: Option<usize>) -> (step: PauseStep)
    ensures
        step == spec_pause_step(window_open, menu),
{
    if !window_open {
        return PauseStep::Leave;
    }
    match menu {
        Some(id) => if id == MENU_PAUSE_ID {
            PauseStep::Resume
        } else if id == MENU_EXIT_ID {
            PauseStep::Leave
        } else {
            PauseStep::Wait
        },
        None => PauseStep::Wait,
    }
}

/// No frame is run once the real time of a frame has passed: a run in turbo
/// comes to its end then, whatever the tape does.
pub proof fn lemma_run_bounded_by_clock(run: AcceleratedRun)
    ensures
        !run.spec_wants_frame(true),
{
}

/// A run in turbo stops before the first frame at which the time had
/// passed: no frame from there on is run.
pub proof fn lemma_no_frame_after_deadline(
    run: AcceleratedRun,
    frames: Seq<AcceleratedFrame>,
    k: int,
)
    requires
        0 <= k < frames.len(),
        frames[k].frame_elapsed,
    ensures
        run.spec_frames_run(frames) <= k,
    decreases frames.len(),
{
    if run.spec_wants_frame(frames[0].frame_elapsed) {
        let next = run.spec_record(frames[0].fts_delta, frames[0].state_changed, frames[0].turbo);
        assert(frames.drop_first()[k - 1] == frames[k]);
        lemma_no_frame_after_deadline(next, frames.drop_first(), k - 1);
    }
}

/// A run in turbo stops after the first frame that changed the state and
/// left turbo off.
pub proof fn lemma_no_frame_after_turbo_ended(
    run: AcceleratedRun,
    frames: Seq<AcceleratedFrame>,
    k: int,
)
    requires
        0 <= k < frames.len(),
        frames[k].state_changed && !frames[k].turbo,
    ensures
        run.spec_frames_run(frames) <= k + 1,
    decreases frames.len(),
{
    if run.spec_wants_frame(frames[0].frame_elapsed) {
        let next = run.spec_record(frames[0].fts_delta, frames[0].state_changed, frames[0].turbo);
        if k == 0 {
            assert(next.ended);
            assert(next.spec_frames_run(frames.drop_first()) == 0);
        } else {
            assert(frames.drop_first()[k - 1] == frames[k]);
            lemma_no_frame_after_turbo_ended(next, frames.drop_first(), k - 1);
        }
    }
}

/// No more frames are run than there are.
pub proof fn lemma_frames_run_bounded(run: AcceleratedRun, frames: Seq<AcceleratedFrame>)
    ensures
        run.spec_frames_run(frames) <= frames.len(),
    decreases frames.len(),
{
    if frames.len() > 0 && run.spec_wants_frame(frames[0].frame_elapsed) {
        let next = run.spec_record(frames[0].fts_delta, frames[0].state_changed, frames[0].turbo);
        lemma_frames_run_bounded(next, frames.drop_first());
    }
}

/// The T-states that the first `count` of `frames` took.
pub open spec fn spec_ticks(frames: Seq<AcceleratedFrame>, count: nat) -> int
    decreases frames.len(),
{
    if count == 0 || frames.len() == 0 {
        0
    } else {
        frames[0].fts_delta + spec_ticks(frames.drop_first(), (count - 1) as nat)
    }
}

/// What a run in turbo reports is what it held before, and what each frame
/// it took in has taken: as long as these sums stay within `i64`.
pub proof fn lemma_run_sums_ticks(run: AcceleratedRun, frames: Seq<AcceleratedFrame>)
    requires
        forall|n: nat|
            n <= frames.len() ==> i64::MIN <= run.sum + #[trigger] spec_ticks(frames, n)
                <= i64::MAX,
    ensures
        run.spec_run_on(frames).sum == run.sum + spec_ticks(frames, run.spec_frames_run(frames)),
    decreases frames.len(),
{
    if frames.len() > 0 && run.spec_wants_frame(frames[0].frame_elapsed) {
        let next = run.spec_record(frames[0].fts_delta, frames[0].state_changed, frames[0].turbo);
        let rest = frames.drop_first();
        assert(spec_ticks(rest, 0) == 0);
        assert(spec_ticks(frames, 1) == frames[0].fts_delta);
        assert(next.sum == run.sum + frames[0].fts_delta);
        assert forall|n: nat| n <= rest.len() implies i64::MIN <= next.sum + #[trigger] spec_ticks(
            rest,
            n,
        ) <= i64::MAX by {
            assert(spec_ticks(frames, n + 1) == frames[0].fts_delta + spec_ticks(rest, n));
        }
        lemma_run_sums_ticks(next, rest);
    }
}

/// A run reports a change of state exactly if it held one before or one of
/// the frames it took in changed the state.
pub proof fn lemma_run_collects_changes(run: AcceleratedRun, frames: Seq<AcceleratedFrame>)
    ensures
        run.spec_run_on(frames).state_changed <==> run.state_changed || exists|i: int|
            0 <= i < run.spec_frames_run(frames) && #[trigger] frames[i].state_changed,
    decreases frames.len(),
{
    if frames.len() > 0 && run.spec_wants_frame(frames[0].frame_elapsed) {
        let next = run.spec_record(frames[0].fts_delta, frames[0].state_changed, frames[0].turbo);
        let rest = frames.drop_first();
        lemma_run_collects_changes(next, rest);
        let count = next.spec_frames_run(rest);
        lemma_frames_run_bounded(next, rest);
        if run.spec_run_on(frames).state_changed && !run.state_changed {
            if frames[0].state_changed {
                assert(0 <= 0 < run.spec_frames_run(frames) && frames[0].state_changed);
            } else {
                let i = choose|i: int| 0 <= i < count && #[trigger] rest[i].state_changed;
                assert(frames[i + 1] == rest[i]);
                assert(0 <= i + 1 < run.spec_frames_run(frames) && frames[i + 1].state_changed);
            }
        }
        if exists|i: int| 0 <= i < run.spec_frames_run(frames) && #[trigger] frames[i].state_changed {
            let i = choose|i: int|
                0 <= i < run.spec_frames_run(frames) && #[trigger] frames[i].state_changed;
            if i > 0 {
                assert(rest[i - 1] == frames[i]);
                assert(0 <= i - 1 < count && rest[i - 1].state_changed);
            }
        }
    }
}

/// Sound is never rendered in turbo or pause, and the thread never waits in
/// turbo.
pub proof fn lemma_turbo_and_pause_are_silent(state: EmulatorState, state_changed: bool)
    ensures
        state.turbo || state.paused ==> !state.spec_after_frame(state_changed).render_audio,
        state.turbo || state.paused ==> state.spec_after_frame(state_changed).audio
            != AudioSwitch::Play,
        state.turbo ==> !state.spec_after_frame(state_changed).synchronize,
        !state.turbo && !state.paused ==> state.spec_after_frame(state_changed).render_audio
            && state.spec_after_frame(state_changed).synchronize,
{
}

} // verus!
