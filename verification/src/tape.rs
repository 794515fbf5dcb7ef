//! The tape recorder as the session sees it: whether a tape is in, how its
//! file is open, and whether the motor runs.
//!
//! The pulses themselves come from and go to the tape file, which the host
//! program holds. Each operation here says what the host has to do to the
//! file so that both stay in step.
use vstd::prelude::*;

verus! {

/// How the file of the inserted tape is open.
#[derive(Debug, Clone, Copy, PartialEq, Eq, Structural)]
pub enum TapKind {
    /// The file is read and its chunks are turned into pulses.
    Reader,
    /// Pulses are decoded and appended to the file as chunks.
    Writer,
}

/// What the recorder is doing.
#[derive(Debug, Clone, Copy, PartialEq, Eq, Structural)]
pub enum TapeMotion {
    /// No tape is inserted.
    Ejected,
    /// A tape is inserted and the motor is off.
    Stopped,
    /// A tape is inserted, open for reading, and the motor is on.
    Playing,
    /// A tape is inserted, open for writing, and the motor is on.
    Recording,
}

/// How a tape file is opened.
#[derive(Debug, Clone, Copy, PartialEq, Eq, Structural)]
pub enum OpenMode {
    /// For reading and writing; a file that is not there is created.
    ReadWriteCreate,
    /// For reading only.
    ReadOnly,
}

/// How a tape file is opened first: for reading and writing.
pub open spec fn spec_first_open_mode() -> OpenMode {
    OpenMode::ReadWriteCreate
}

/// How a tape file is opened after it could not be opened as `failed`: one
/// that could not be opened for writing is opened for reading; after that
/// there is nothing left to try.
pub open spec fn spec_next_open_mode(failed: OpenMode) -> Option<OpenMode> {
    match failed {
        OpenMode::ReadWriteCreate => Some(OpenMode::ReadOnly),
        OpenMode::ReadOnly => None,
    }
}

/// How a tape file is opened first: for reading and writing.
pub fn first_open_mode() -> (mode: OpenMode)
    ensures
        mode == spec_first_open_mode(),
{
    OpenMode::ReadWriteCreate
}

/// How a tape file is opened after it could not be opened as `failed`, or
/// `None` where the failure is final and the host reports it.
pub fn next_open_mode(failed: OpenMode) -> (mode: Option<OpenMode>)
    ensures
        mode == spec_next_open_mode(failed),
{
    match failed {
        OpenMode::ReadWriteCreate => Some(OpenMode::ReadOnly),
        OpenMode::ReadOnly => None,
    }
}

/// A simple tape recorder.
#[derive(Debug, Clone, Copy, PartialEq, Eq, Structural)]
pub struct Tape {
    /// Whether the motor is on. With a tape inserted this means playback or
    /// recording, by the way the tape is open.
    pub running: bool,
    /// The inserted tape, if there is one.
    pub tap: Option<TapKind>,
}

impl Tape {
    /// The recorder with no tape and the motor off.
    pub open spec fn spec_new() -> Tape {
        Tape { running: false, tap: None }
    }

    pub open spec fn spec_is_inserted(self) -> bool {
        self.tap is Some
    }

    pub open spec fn spec_is_playing(self) -> bool {
        self.running && self.tap == Some(TapKind::Reader)
    }

    pub open spec fn spec_is_recording(self) -> bool {
        self.running && self.tap == Some(TapKind::Writer)
    }

    pub open spec fn spec_is_running(self) -> bool {
        self.running && self.tap is Some
    }

    /// What the recorder is doing.
    pub open spec fn spec_motion(self) -> TapeMotion {
        match self.tap {
            None => TapeMotion::Ejected,
            Some(kind) => if !self.running {
                TapeMotion::Stopped
            } else {
                match kind {
                    TapKind::Reader => TapeMotion::Playing,
                    TapKind::Writer => TapeMotion::Recording,
                }
            },
        }
    }

    /// The recorder after the play key: the motor is on and an inserted tape
    /// is open for reading.
    pub open spec fn spec_play(self) -> Tape {
        Tape {
            running: true,
            tap: match self.tap {
                Some(_) => Some(TapKind::Reader),
                None => None,
            },
        }
    }

    /// The recorder after the record key: the motor is on and an inserted
    /// tape is open for writing.
    pub open spec fn spec_record(self) -> Tape {
        Tape {
            running: true,
            tap: match self.tap {
                Some(_) => Some(TapKind::Writer),
                None => None,
            },
        }
    }

    /// The recorder after the stop key.
    pub open spec fn spec_stop(self) -> Tape {
        Tape { running: false, tap: self.tap }
    }

    /// The recorder with no tape and the motor off.
    pub fn new() -> (tape: Tape)
        ensures
            tape == Tape::spec_new(),
    {
        Tape { running: false, tap: None }
    }

    /// Whether a tape is inserted.
    pub fn is_inserted(&self) -> (inserted: bool)
        ensures
            inserted == self.spec_is_inserted(),
    {
        self.tap.is_some()
    }

    /// Whether no tape is inserted.
    pub fn is_ejected(&self) -> (ejected: bool)
        ensures
            ejected == !self.spec_is_inserted(),
    {
        self.tap.is_none()
    }

    /// Whether a tape is inserted and the motor is on.
    pub fn is_running(&self) -> (running: bool)
        ensures
            running == self.spec_is_running(),
    {
        self.running && self.tap.is_some()
    }

    /// Whether no tape is inserted or the motor is off.
    pub fn is_idle(&self) -> (idle: bool)
        ensures
            idle == !self.spec_is_running(),
    {
        !self.is_running()
    }

    /// Whether a tape open for reading is inserted and the motor is on.
    pub fn is_playing(&self) -> (playing: bool)
        ensures
            playing == self.spec_is_playing(),
    {
        self.running && match self.tap {
            Some(TapKind::Reader) => true,
            _ => false,
        }
    }

    /// Whether a tape open for writing is inserted and the motor is on.
    pub fn is_recording(&self) -> (recording: bool)
        ensures
            recording == self.spec_is_recording(),
    {
        self.running && match self.tap {
            Some(TapKind::Writer) => true,
            _ => false,
        }
    }

    /// What the recorder is doing.
    pub fn motion(&self) -> (motion: TapeMotion)
        ensures
            motion == self.spec_motion(),
    {
        match self.tap {
            None => TapeMotion::Ejected,
            Some(kind) => if !self.running {
                TapeMotion::Stopped
            } else {
                match kind {
                    TapKind::Reader => TapeMotion::Playing,
                    TapKind::Writer => TapeMotion::Recording,
                }
            },
        }
    }

    /// Turns the motor on and has an inserted tape open for reading.
    ///
    /// Returns whether the tape was open for writing: the host then has to
    /// close the chunk being written and reopen the file for reading from
    /// its start. Should that fail, the tape is lost: see [`Tape::tap_lost`].
    pub fn play(&mut self) -> (reopen: bool)
        ensures
            *final(self) == old(self).spec_play(),
            reopen == (old(self).tap == Some(TapKind::Writer)),
    {
        self.running = true;
        match self.tap {
            Some(TapKind::Writer) => {
                self.tap = Some(TapKind::Reader);
                true
            },
            _ => false,
        }
    }

    /// Turns the motor on and has an inserted tape open for writing.
    ///
    /// Returns whether the tape was open for reading: the host then has to
    /// reopen the file for writing at its end. Should that fail, the tape is
    /// lost: see [`Tape::tap_lost`].
    pub fn record(&mut self) -> (reopen: bool)
        ensures
            *final(self) == old(self).spec_record(),
            reopen == (old(self).tap == Some(TapKind::Reader)),
    {
        self.running = true;
        match self.tap {
            Some(TapKind::Reader) => {
                self.tap = Some(TapKind::Writer);
                true
            },
            _ => false,
        }
    }

    /// Turns the motor off.
    pub fn stop(&mut self)
        ensures
            *final(self) == old(self).spec_stop(),
    {
        self.running = false;
    }

    /// Turns the motor off and takes the tape out. Returns how the tape that
    /// was in had been open.
    pub fn eject(&mut self) -> (ejected: Option<TapKind>)
        ensures
            *final(self) == Tape::spec_new(),
            ejected == old(self).tap,
    {
        let ejected = self.tap;
        self.running = false;
        self.tap = None;
        ejected
    }

    /// Puts in a tape open as `kind`, on top of the one that may be in, and
    /// leaves the motor as it is. Returns how the tape that was in had been
    /// open.
    pub fn insert(&mut self, kind: TapKind) -> (previous: Option<TapKind>)
        ensures
            final(self).running == old(self).running,
            final(self).tap == Some(kind),
            previous == old(self).tap,
    {
        let previous = self.tap;
        self.tap = Some(kind);
        previous
    }

    /// Records that the file could not be reopened after [`Tape::play`] or
    /// [`Tape::record`]: the tape is gone, the motor stays as it is.
    pub fn tap_lost(&mut self)
        ensures
            final(self).running == old(self).running,
            final(self).tap is None,
    {
        self.tap = None;
    }
}

impl Default for Tape {
    fn default() -> (tape: Tape)
        ensures
            tape == Tape::spec_new(),
    {
        Tape::new()
    }
}

/// The motor of a recorder without a tape moves nothing: such a recorder is
/// `Ejected`, and every other motion names its tape and motor.
pub proof fn lemma_motion_classifies(tape: Tape)
    ensures
        tape.spec_motion() == TapeMotion::Ejected <==> !tape.spec_is_inserted(),
        tape.spec_motion() == TapeMotion::Stopped <==> tape.spec_is_inserted() && !tape.running,
        tape.spec_motion() == TapeMotion::Playing <==> tape.spec_is_playing(),
        tape.spec_motion() == TapeMotion::Recording <==> tape.spec_is_recording(),
{
}

} // verus!
