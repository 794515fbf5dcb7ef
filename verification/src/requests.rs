//! What the user can ask for through the menu, and what each request does
//! to the session.
use vstd::prelude::*;
use crate::joystick::{JoystickChoice, JoystickKind};
use crate::model::{Action, ModelReq};
use crate::spectrum::ZxSpectrum;
use crate::state::EmulatorState;
use crate::tape::{Tape, TapKind};

verus! {

pub const MENU_EXIT_ID: usize = 0;

pub const MENU_HARD_RESET_ID: usize = 1;

pub const MENU_SOFT_RESET_ID: usize = 2;

pub const MENU_TRIG_NMI_ID: usize = 3;

pub const MENU_PAUSE_ID: usize = 6;

pub const MENU_TURBO_ID: usize = 7;

pub const MENU_MODEL_16_ID: usize = 10;

pub const MENU_MODEL_48_ID: usize = 11;

pub const MENU_MODEL_128_ID: usize = 12;

pub const MENU_TAPE_REWIND_ID: usize = 100;

pub const MENU_TAPE_PLAY_ID: usize = 101;

pub const MENU_TAPE_RECORD_ID: usize = 102;

pub const MENU_TAPE_STOP_ID: usize = 103;

pub const MENU_TAPE_PREV_ID: usize = 104;

pub const MENU_TAPE_NEXT_ID: usize = 105;

pub const MENU_TAPE_AUDIBLE_ID: usize = 106;

pub const MENU_TAPE_FLASH_ID: usize = 107;

pub const MENU_TAPE_OPEN_ID: usize = 108;

pub const MENU_TAPE_SAVE_ID: usize = 109;

pub const MENU_TAPE_EJECT_ID: usize = 110;

pub const MENU_JOY_KEMPSTON_ID: usize = 201;

pub const MENU_JOY_FULLER_ID: usize = 202;

pub const MENU_JOY_IF2_0_ID: usize = 203;

pub const MENU_JOY_IF2_1_ID: usize = 204;

pub const MENU_JOY_AGF_ID: usize = 205;

pub const MENU_JOY_NONE_ID: usize = 299;

/// The chunk that the rewind key winds the tape to.
pub const FIRST_CHUNK: u32 = 1;

/// A request of the user.
#[derive(Debug, Clone, Copy, PartialEq, Eq, Structural)]
pub enum Command {
    Exit,
    ChangeModel(ModelReq),
    HardReset,
    SoftReset,
    TriggerNmi,
    /// Plug in the joystick that the index stands for, or none.
    SelectJoystick(usize),
    ToggleTurbo,
    Pause,
    TapeRewind,
    TapePlay,
    TapeRecord,
    TapeStop,
    TapePrevChunk,
    TapeNextChunk,
    ToggleAudible,
    ToggleFlash,
    TapeOpen,
    TapeSave,
    TapeEject,
}

/// What a request leaves for the host to do to its devices and files.
#[derive(Debug, Clone, Copy, PartialEq, Eq, Structural)]
pub enum HostJob {
    /// Nothing.
    Nothing,
    /// Plug the device into the joystick port; with `None`, unplug what is
    /// in it.
    PlugJoystick(Option<JoystickKind>),
    /// Wind the tape to the start of the chunk of this number.
    RewindTape(u32),
    /// Wind the tape back by a chunk.
    PrevChunk,
    /// Wind the tape on by a chunk.
    NextChunk,
    /// Reopen the tape file to be read from its start, or to be written at
    /// its end. Should that fail, the tape is lost: the host calls
    /// [`Tape::tap_lost`].
    ReopenTape(TapKind),
    /// Ask the user for a tape file to open. When it has been opened the
    /// host calls [`EmulatorState::insert_tape`].
    OpenTape,
    /// Ask the user for a tape file to create. When it has been created the
    /// host calls [`EmulatorState::insert_tape`].
    SaveTape,
    /// Let go of the tape file.
    EjectTape,
}

/// What became of a request.
#[derive(Debug, Clone, Copy, PartialEq, Eq, Structural)]
pub enum UserRequest {
    /// The frame loop is to be left with this action.
    Leave(Action),
    /// The request has been seen to, but for the job named. The frame loop
    /// goes on and takes the state to have changed.
    Handled(HostJob),
}

/// The request that a menu item stands for.
pub open spec fn spec_command(menu_id: usize) -> Option<Command> {
    if menu_id == MENU_EXIT_ID {
        Some(Command::Exit)
    } else if menu_id == MENU_MODEL_16_ID {
        Some(Command::ChangeModel(ModelReq::Spectrum16))
    } else if menu_id == MENU_MODEL_48_ID {
        Some(Command::ChangeModel(ModelReq::Spectrum48))
    } else if menu_id == MENU_MODEL_128_ID {
        Some(Command::ChangeModel(ModelReq::Spectrum128))
    } else if menu_id == MENU_HARD_RESET_ID {
        Some(Command::HardReset)
    } else if menu_id == MENU_SOFT_RESET_ID {
        Some(Command::SoftReset)
    } else if menu_id == MENU_TRIG_NMI_ID {
        Some(Command::TriggerNmi)
    } else if MENU_JOY_KEMPSTON_ID <= menu_id <= MENU_JOY_AGF_ID || menu_id == MENU_JOY_NONE_ID {
        Some(Command::SelectJoystick((menu_id - MENU_JOY_KEMPSTON_ID) as usize))
    } else if menu_id == MENU_TURBO_ID {
        Some(Command::ToggleTurbo)
    } else if menu_id == MENU_PAUSE_ID {
        Some(Command::Pause)
    } else if menu_id == MENU_TAPE_REWIND_ID {
        Some(Command::TapeRewind)
    } else if menu_id == MENU_TAPE_PLAY_ID {
        Some(Command::TapePlay)
    } else if menu_id == MENU_TAPE_RECORD_ID {
        Some(Command::TapeRecord)
    } else if menu_id == MENU_TAPE_STOP_ID {
        Some(Command::TapeStop)
    } else if menu_id == MENU_TAPE_PREV_ID {
        Some(Command::TapePrevChunk)
    } else if menu_id == MENU_TAPE_NEXT_ID {
        Some(Command::TapeNextChunk)
    } else if menu_id == MENU_TAPE_AUDIBLE_ID {
        Some(Command::ToggleAudible)
    } else if menu_id == MENU_TAPE_FLASH_ID {
        Some(Command::ToggleFlash)
    } else if menu_id == MENU_TAPE_OPEN_ID {
        Some(Command::TapeOpen)
    } else if menu_id == MENU_TAPE_SAVE_ID {
        Some(Command::TapeSave)
    } else if menu_id == MENU_TAPE_EJECT_ID {
        Some(Command::TapeEject)
    } else {
        None
    }
}

/// The request that a menu item stands for, if it stands for one.
pub fn command_from_menu_id(menu_id: usize) -> (command: Option<Command>)
    ensures
        command == spec_command(menu_id),
{
    if menu_id == MENU_EXIT_ID {
        Some(Command::Exit)
    } else if menu_id == MENU_MODEL_16_ID {
        Some(Command::ChangeModel(ModelReq::Spectrum16))
    } else if menu_id == MENU_MODEL_48_ID {
        Some(Command::ChangeModel(ModelReq::Spectrum48))
    } else if menu_id == MENU_MODEL_128_ID {
        Some(Command::ChangeModel(ModelReq::Spectrum128))
    } else if menu_id == MENU_HARD_RESET_ID {
        Some(Command::HardReset)
    } else if menu_id == MENU_SOFT_RESET_ID {
        Some(Command::SoftReset)
    } else if menu_id == MENU_TRIG_NMI_ID {
        Some(Command::TriggerNmi)
    } else if (MENU_JOY_KEMPSTON_ID <= menu_id && menu_id <= MENU_JOY_AGF_ID) || menu_id
        == MENU_JOY_NONE_ID {
        Some(Command::SelectJoystick(menu_id - MENU_JOY_KEMPSTON_ID))
    } else if menu_id == MENU_TURBO_ID {
        Some(Command::ToggleTurbo)
    } else if menu_id == MENU_PAUSE_ID {
        Some(Command::Pause)
    } else if menu_id == MENU_TAPE_REWIND_ID {
        Some(Command::TapeRewind)
    } else if menu_id == MENU_TAPE_PLAY_ID {
        Some(Command::TapePlay)
    } else if menu_id == MENU_TAPE_RECORD_ID {
        Some(Command::TapeRecord)
    } else if menu_id == MENU_TAPE_STOP_ID {
        Some(Command::TapeStop)
    } else if menu_id == MENU_TAPE_PREV_ID {
        Some(Command::TapePrevChunk)
    } else if menu_id == MENU_TAPE_NEXT_ID {
        Some(Command::TapeNextChunk)
    } else if menu_id == MENU_TAPE_AUDIBLE_ID {
        Some(Command::ToggleAudible)
    } else if menu_id == MENU_TAPE_FLASH_ID {
        Some(Command::ToggleFlash)
    } else if menu_id == MENU_TAPE_OPEN_ID {
        Some(Command::TapeOpen)
    } else if menu_id == MENU_TAPE_SAVE_ID {
        Some(Command::TapeSave)
    } else if menu_id == MENU_TAPE_EJECT_ID {
        Some(Command::TapeEject)
    } else {
        None
    }
}

impl EmulatorState {
    /// The state after the choice of a joystick, on a computer that has a
    /// joystick port or has none.
    pub open spec fn spec_select_joystick(self, joy_index: usize, joystick_port: bool) -> EmulatorState {
        if joystick_port {
            EmulatorState { sub_joy: JoystickChoice::spec_with_index(joy_index).sub_joy, ..self }
        } else {
            self
        }
    }

    /// Chooses the joystick that `joy_index` stands for, or none if it
    /// stands for none. On a computer without a joystick port nothing is
    /// chosen and nothing changes.
    ///
    /// Returns the device to plug into the port, or `None` to empty it; and
    /// `None` altogether where there is no port.
    pub fn select_joystick(&mut self, joy_index: usize, joystick_port: bool) -> (plug: Option<
        Option<JoystickKind>,
    >)
        ensures
            *final(self) == old(self).spec_select_joystick(joy_index, joystick_port),
            plug == (if joystick_port {
                Some(JoystickChoice::spec_with_index(joy_index).device)
            } else {
                None
            }),
    {
        if joystick_port {
            let choice: JoystickChoice = JoystickChoice::with_index(joy_index);
            self.sub_joy = choice.sub_joy;
            Some(choice.device)
        } else {
            None
        }
    }
}

impl<C, U> ZxSpectrum<C, U> {
    /// The machine after a request.
    pub open spec fn spec_apply(self, command: Command, joystick_port: bool) -> Self {
        let state = self.state;
        match command {
            Command::HardReset => ZxSpectrum { reset_request: Some(true), ..self },
            Command::SoftReset => ZxSpectrum { reset_request: Some(false), ..self },
            Command::TriggerNmi => ZxSpectrum { nmi_request: true, ..self },
            Command::SelectJoystick(joy_index) => ZxSpectrum {
                state: state.spec_select_joystick(joy_index, joystick_port),
                ..self
            },
            Command::ToggleTurbo => ZxSpectrum {
                state: EmulatorState { turbo: !state.turbo, ..state },
                ..self
            },
            Command::Pause => ZxSpectrum { state: EmulatorState { paused: true, ..state }, ..self },
            Command::TapePlay => ZxSpectrum {
                state: EmulatorState { tape: state.tape.spec_play(), ..state },
                ..self
            },
            Command::TapeRecord => ZxSpectrum {
                state: EmulatorState { tape: state.tape.spec_record(), ..state },
                ..self
            },
            Command::TapeStop => ZxSpectrum {
                state: EmulatorState { tape: state.tape.spec_stop(), ..state },
                ..self
            },
            Command::ToggleAudible => ZxSpectrum {
                state: EmulatorState { audible_tape: !state.audible_tape, ..state },
                ..self
            },
            Command::ToggleFlash => ZxSpectrum {
                state: EmulatorState { flash_tape: !state.flash_tape, ..state },
                ..self
            },
            Command::TapeEject => ZxSpectrum {
                state: EmulatorState { tape: Tape::spec_new(), ..state },
                ..self
            },
            _ => self,
        }
    }

    /// What becomes of a request.
    pub open spec fn spec_apply_outcome(self, command: Command, joystick_port: bool) -> UserRequest {
        match command {
            Command::Exit => UserRequest::Leave(Action::Exit),
            Command::ChangeModel(model) => UserRequest::Leave(Action::ChangeModel(model)),
            Command::SelectJoystick(joy_index) => if joystick_port {
                UserRequest::Handled(
                    HostJob::PlugJoystick(JoystickChoice::spec_with_index(joy_index).device),
                )
            } else {
                UserRequest::Handled(HostJob::Nothing)
            },
            Command::TapeRewind => UserRequest::Handled(HostJob::RewindTape(FIRST_CHUNK)),
            Command::TapePlay => if self.state.tape.tap == Some(TapKind::Writer) {
                UserRequest::Handled(HostJob::ReopenTape(TapKind::Reader))
            } else {
                UserRequest::Handled(HostJob::Nothing)
            },
            Command::TapeRecord => if self.state.tape.tap == Some(TapKind::Reader) {
                UserRequest::Handled(HostJob::ReopenTape(TapKind::Writer))
            } else {
                UserRequest::Handled(HostJob::Nothing)
            },
            Command::TapePrevChunk => UserRequest::Handled(HostJob::PrevChunk),
            Command::TapeNextChunk => UserRequest::Handled(HostJob::NextChunk),
            Command::TapeOpen => UserRequest::Handled(HostJob::OpenTape),
            Command::TapeSave => UserRequest::Handled(HostJob::SaveTape),
            Command::TapeEject => UserRequest::Handled(HostJob::EjectTape),
            _ => UserRequest::Handled(HostJob::Nothing),
        }
    }

    /// The machine after the menu item `menu_id` was chosen.
    pub open spec fn spec_user_request(self, menu_id: usize, joystick_port: bool) -> Self {
        match spec_command(menu_id) {
            Some(command) => self.spec_apply(command, joystick_port),
            None => self,
        }
    }

    /// What becomes of the choice of the menu item `menu_id`.
    pub open spec fn spec_user_request_outcome(self, menu_id: usize, joystick_port: bool) -> UserRequest {
        match spec_command(menu_id) {
            Some(command) => self.spec_apply_outcome(command, joystick_port),
            None => UserRequest::Handled(HostJob::Nothing),
        }
    }

    /// Sees to a request. `joystick_port` tells whether the computer has a
    /// port to plug a joystick into.
    ///
    /// Leaving and the change of model are handed back as the action to leave
    /// the frame loop with. Resets and the interrupt are noted for the start
    /// of the next frame. The switches are switched, the recorder's keys are
    /// pressed, and what that means for the tape file or the joystick port is
    /// left to the host as a job.
    pub fn apply(&mut self, command: Command, joystick_port: bool) -> (outcome: UserRequest)
        ensures
            *final(self) == old(self).spec_apply(command, joystick_port),
            outcome == old(self).spec_apply_outcome(command, joystick_port),
    {
        let mut job: HostJob = HostJob::Nothing;
        match command {
            Command::Exit => {
                return UserRequest::Leave(Action::Exit);
            },
            Command::ChangeModel(model) => {
                return UserRequest::Leave(Action::ChangeModel(model));
            },
            Command::HardReset => {
                self.reset(true);
            },
            Command::SoftReset => {
                self.reset(false);
            },
            Command::TriggerNmi => {
                self.trigger_nmi();
            },
            Command::SelectJoystick(joy_index) => {
                match self.state.select_joystick(joy_index, joystick_port) {
                    Some(device) => {
                        job = HostJob::PlugJoystick(device);
                    },
                    None => {},
                }
            },
            Command::ToggleTurbo => {
                self.state.turbo = !self.state.turbo;
            },
            Command::Pause => {
                self.state.paused = true;
            },
            Command::TapeRewind => {
                job = HostJob::RewindTape(FIRST_CHUNK);
            },
            Command::TapePlay => {
                if self.state.tape.play() {
                    job = HostJob::ReopenTape(TapKind::Reader);
                }
            },
            Command::TapeRecord => {
                if self.state.tape.record() {
                    job = HostJob::ReopenTape(TapKind::Writer);
                }
            },
            Command::TapeStop => {
                self.state.tape.stop();
            },
            Command::TapePrevChunk => {
                job = HostJob::PrevChunk;
            },
            Command::TapeNextChunk => {
                job = HostJob::NextChunk;
            },
            Command::ToggleAudible => {
                self.state.audible_tape = !self.state.audible_tape;
            },
            Command::ToggleFlash => {
                self.state.flash_tape = !self.state.flash_tape;
            },
            Command::TapeOpen => {
                job = HostJob::OpenTape;
            },
            Command::TapeSave => {
                job = HostJob::SaveTape;
            },
            Command::TapeEject => {
                let _ = self.state.tape.eject();
                job = HostJob::EjectTape;
            },
        }
        UserRequest::Handled(job)
    }

    /// Sees to the choice of the menu item `menu_id`; see
    /// [`ZxSpectrum::apply`]. An item that stands for no request is passed
    /// over as one that was seen to.
    pub fn update_on_user_request(&mut self, menu_id: usize, joystick_port: bool) -> (outcome:
        UserRequest)
        ensures
            *final(self) == old(self).spec_user_request(menu_id, joystick_port),
            outcome == old(self).spec_user_request_outcome(menu_id, joystick_port),
    {
        match command_from_menu_id(menu_id) {
            Some(command) => self.apply(command, joystick_port),
            None => UserRequest::Handled(HostJob::Nothing),
        }
    }
}

/// Only leaving and the change of model leave the frame loop, and neither
/// touches the machine.
pub proof fn lemma_leaving_changes_nothing<C, U>(
    spectrum: ZxSpectrum<C, U>,
    command: Command,
    joystick_port: bool,
)
    ensures
        spectrum.spec_apply_outcome(command, joystick_port) is Leave <==> command is Exit
            || command is ChangeModel,
        spectrum.spec_apply_outcome(command, joystick_port) is Leave ==> spectrum.spec_apply(
            command,
            joystick_port,
        ) == spectrum,
{
}

/// No request touches the CPU or the chipset: what is asked of them waits
/// for the next frame.
pub proof fn lemma_requests_spare_the_hardware<C, U>(
    spectrum: ZxSpectrum<C, U>,
    command: Command,
    joystick_port: bool,
)
    ensures
        spectrum.spec_apply(command, joystick_port).cpu == spectrum.cpu,
        spectrum.spec_apply(command, joystick_port).ula == spectrum.ula,
{
}

/// A menu item that stands for no request changes nothing and leaves the
/// frame loop running: no model is changed to that the menu does not name.
pub proof fn lemma_unknown_items_change_nothing<C, U>(
    spectrum: ZxSpectrum<C, U>,
    menu_id: usize,
    joystick_port: bool,
)
    requires
        spec_command(menu_id) is None,
    ensures
        spectrum.spec_user_request(menu_id, joystick_port) == spectrum,
        spectrum.spec_user_request_outcome(menu_id, joystick_port) == UserRequest::Handled(
            HostJob::Nothing,
        ),
{
}

/// The frame loop is left for a change of model only by one of the three
/// items that name a model, and for the model that the item names.
pub proof fn lemma_model_changes_are_named<C, U>(
    spectrum: ZxSpectrum<C, U>,
    menu_id: usize,
    joystick_port: bool,
    model: ModelReq,
)
    ensures
        spectrum.spec_user_request_outcome(menu_id, joystick_port) == UserRequest::Leave(
            Action::ChangeModel(model),
        ) <==> menu_id == (match model {
            ModelReq::Spectrum16 => MENU_MODEL_16_ID,
            ModelReq::Spectrum48 => MENU_MODEL_48_ID,
            ModelReq::Spectrum128 => MENU_MODEL_128_ID,
        }),
{
}

} // verus!
