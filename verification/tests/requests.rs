use spectrusty_tutorial::joystick::JoystickKind;
use spectrusty_tutorial::model::{Action, ModelReq};
use spectrusty_tutorial::requests::{
    command_from_menu_id, Command, HostJob, UserRequest, FIRST_CHUNK, MENU_EXIT_ID,
    MENU_HARD_RESET_ID, MENU_JOY_AGF_ID, MENU_JOY_FULLER_ID, MENU_JOY_IF2_0_ID,
    MENU_JOY_IF2_1_ID, MENU_JOY_KEMPSTON_ID, MENU_JOY_NONE_ID, MENU_MODEL_128_ID,
    MENU_MODEL_16_ID, MENU_MODEL_48_ID, MENU_PAUSE_ID, MENU_SOFT_RESET_ID,
    MENU_TAPE_AUDIBLE_ID, MENU_TAPE_EJECT_ID, MENU_TAPE_FLASH_ID, MENU_TAPE_NEXT_ID,
    MENU_TAPE_OPEN_ID, MENU_TAPE_PLAY_ID, MENU_TAPE_PREV_ID, MENU_TAPE_RECORD_ID,
    MENU_TAPE_REWIND_ID, MENU_TAPE_SAVE_ID, MENU_TAPE_STOP_ID, MENU_TRIG_NMI_ID, MENU_TURBO_ID,
};
use spectrusty_tutorial::spectrum::ZxSpectrum;
use spectrusty_tutorial::state::EmulatorState;
use spectrusty_tutorial::tape::{TapKind, Tape};

fn session() -> ZxSpectrum<u8, u8> {
    ZxSpectrum::new(1, 2)
}

fn handled(job: HostJob) -> UserRequest {
    UserRequest::Handled(job)
}

#[test]
fn menu_ids_are_what_the_menus_are_built_with() {
    assert_eq!(
        [MENU_EXIT_ID, MENU_HARD_RESET_ID, MENU_SOFT_RESET_ID, MENU_TRIG_NMI_ID],
        [0, 1, 2, 3]
    );
    assert_eq!([MENU_PAUSE_ID, MENU_TURBO_ID], [6, 7]);
    assert_eq!([MENU_MODEL_16_ID, MENU_MODEL_48_ID, MENU_MODEL_128_ID], [10, 11, 12]);
    assert_eq!(
        [
            MENU_TAPE_REWIND_ID,
            MENU_TAPE_PLAY_ID,
            MENU_TAPE_RECORD_ID,
            MENU_TAPE_STOP_ID,
            MENU_TAPE_PREV_ID,
            MENU_TAPE_NEXT_ID,
            MENU_TAPE_AUDIBLE_ID,
            MENU_TAPE_FLASH_ID,
            MENU_TAPE_OPEN_ID,
            MENU_TAPE_SAVE_ID,
            MENU_TAPE_EJECT_ID,
        ],
        [100, 101, 102, 103, 104, 105, 106, 107, 108, 109, 110]
    );
    assert_eq!(
        [
            MENU_JOY_KEMPSTON_ID,
            MENU_JOY_FULLER_ID,
            MENU_JOY_IF2_0_ID,
            MENU_JOY_IF2_1_ID,
            MENU_JOY_AGF_ID,
            MENU_JOY_NONE_ID,
        ],
        [201, 202, 203, 204, 205, 299]
    );
}

#[test]
fn every_menu_item_stands_for_its_request() {
    assert_eq!(command_from_menu_id(0), Some(Command::Exit));
    assert_eq!(command_from_menu_id(1), Some(Command::HardReset));
    assert_eq!(command_from_menu_id(2), Some(Command::SoftReset));
    assert_eq!(command_from_menu_id(3), Some(Command::TriggerNmi));
    assert_eq!(command_from_menu_id(6), Some(Command::Pause));
    assert_eq!(command_from_menu_id(7), Some(Command::ToggleTurbo));
    assert_eq!(command_from_menu_id(10), Some(Command::ChangeModel(ModelReq::Spectrum16)));
    assert_eq!(command_from_menu_id(11), Some(Command::ChangeModel(ModelReq::Spectrum48)));
    assert_eq!(command_from_menu_id(12), Some(Command::ChangeModel(ModelReq::Spectrum128)));
    assert_eq!(command_from_menu_id(100), Some(Command::TapeRewind));
    assert_eq!(command_from_menu_id(101), Some(Command::TapePlay));
    assert_eq!(command_from_menu_id(102), Some(Command::TapeRecord));
    assert_eq!(command_from_menu_id(103), Some(Command::TapeStop));
    assert_eq!(command_from_menu_id(104), Some(Command::TapePrevChunk));
    assert_eq!(command_from_menu_id(105), Some(Command::TapeNextChunk));
    assert_eq!(command_from_menu_id(106), Some(Command::ToggleAudible));
    assert_eq!(command_from_menu_id(107), Some(Command::ToggleFlash));
    assert_eq!(command_from_menu_id(108), Some(Command::TapeOpen));
    assert_eq!(command_from_menu_id(109), Some(Command::TapeSave));
    assert_eq!(command_from_menu_id(110), Some(Command::TapeEject));
    assert_eq!(command_from_menu_id(201), Some(Command::SelectJoystick(0)));
    assert_eq!(command_from_menu_id(202), Some(Command::SelectJoystick(1)));
    assert_eq!(command_from_menu_id(203), Some(Command::SelectJoystick(2)));
    assert_eq!(command_from_menu_id(204), Some(Command::SelectJoystick(3)));
    assert_eq!(command_from_menu_id(205), Some(Command::SelectJoystick(4)));
    assert_eq!(command_from_menu_id(299), Some(Command::SelectJoystick(98)));
}

#[test]
fn other_menu_items_stand_for_nothing() {
    for id in [4, 5, 8, 9, 13, 99, 111, 200, 206, 298, 300, usize::MAX] {
        assert_eq!(command_from_menu_id(id), None);
        let mut spectrum = session();
        assert_eq!(spectrum.update_on_user_request(id, true), handled(HostJob::Nothing));
        assert_eq!(spectrum.state, EmulatorState::new());
        assert!(!spectrum.nmi_request);
        assert_eq!(spectrum.reset_request, None);
    }
}

#[test]
fn leaving_and_model_changes_are_handed_back() {
    let mut spectrum = session();
    assert_eq!(
        spectrum.update_on_user_request(MENU_EXIT_ID, true),
        UserRequest::Leave(Action::Exit)
    );
    assert_eq!(
        spectrum.update_on_user_request(MENU_MODEL_16_ID, true),
        UserRequest::Leave(Action::ChangeModel(ModelReq::Spectrum16))
    );
    assert_eq!(
        spectrum.update_on_user_request(MENU_MODEL_48_ID, true),
        UserRequest::Leave(Action::ChangeModel(ModelReq::Spectrum48))
    );
    assert_eq!(
        spectrum.update_on_user_request(MENU_MODEL_128_ID, false),
        UserRequest::Leave(Action::ChangeModel(ModelReq::Spectrum128))
    );
    assert_eq!(spectrum.state, EmulatorState::new());
    assert_eq!((spectrum.cpu, spectrum.ula), (1, 2));
}

#[test]
fn resets_and_the_interrupt_are_noted() {
    let mut spectrum = session();
    assert_eq!(spectrum.update_on_user_request(MENU_SOFT_RESET_ID, true), handled(HostJob::Nothing));
    assert_eq!(spectrum.reset_request, Some(false));
    assert_eq!(spectrum.update_on_user_request(MENU_HARD_RESET_ID, true), handled(HostJob::Nothing));
    assert_eq!(spectrum.reset_request, Some(true));
    assert!(!spectrum.nmi_request);
    assert_eq!(spectrum.update_on_user_request(MENU_TRIG_NMI_ID, true), handled(HostJob::Nothing));
    assert!(spectrum.nmi_request);
    assert_eq!(spectrum.state, EmulatorState::new());
}

#[test]
fn switches_are_switched() {
    let mut spectrum = session();
    assert_eq!(spectrum.update_on_user_request(MENU_TURBO_ID, true), handled(HostJob::Nothing));
    assert!(spectrum.state.turbo);
    spectrum.update_on_user_request(MENU_TURBO_ID, true);
    assert!(!spectrum.state.turbo);
    spectrum.update_on_user_request(MENU_TAPE_AUDIBLE_ID, true);
    assert!(spectrum.state.audible_tape);
    spectrum.update_on_user_request(MENU_TAPE_AUDIBLE_ID, true);
    assert!(!spectrum.state.audible_tape);
    spectrum.update_on_user_request(MENU_TAPE_FLASH_ID, true);
    assert!(spectrum.state.flash_tape);
    spectrum.update_on_user_request(MENU_TAPE_FLASH_ID, true);
    assert!(!spectrum.state.flash_tape);
    assert_eq!(spectrum.update_on_user_request(MENU_PAUSE_ID, true), handled(HostJob::Nothing));
    assert!(spectrum.state.paused);
    spectrum.update_on_user_request(MENU_PAUSE_ID, true);
    assert!(spectrum.state.paused);
}

#[test]
fn a_joystick_is_plugged_into_the_port() {
    let mut spectrum = session();
    assert_eq!(
        spectrum.update_on_user_request(MENU_JOY_IF2_1_ID, true),
        handled(HostJob::PlugJoystick(Some(JoystickKind::Sinclair)))
    );
    assert_eq!(spectrum.state.sub_joy, 1);
    assert_eq!(
        spectrum.update_on_user_request(MENU_JOY_IF2_0_ID, true),
        handled(HostJob::PlugJoystick(Some(JoystickKind::Sinclair)))
    );
    assert_eq!(spectrum.state.sub_joy, 0);
    assert_eq!(
        spectrum.update_on_user_request(MENU_JOY_KEMPSTON_ID, true),
        handled(HostJob::PlugJoystick(Some(JoystickKind::Kempston)))
    );
    assert_eq!(
        spectrum.update_on_user_request(MENU_JOY_FULLER_ID, true),
        handled(HostJob::PlugJoystick(Some(JoystickKind::Fuller)))
    );
    assert_eq!(
        spectrum.update_on_user_request(MENU_JOY_AGF_ID, true),
        handled(HostJob::PlugJoystick(Some(JoystickKind::Cursor)))
    );
    spectrum.state.sub_joy = 1;
    assert_eq!(
        spectrum.update_on_user_request(MENU_JOY_NONE_ID, true),
        handled(HostJob::PlugJoystick(None))
    );
    assert_eq!(spectrum.state.sub_joy, 0);
}

#[test]
fn without_a_port_no_joystick_is_chosen() {
    let mut spectrum = session();
    spectrum.state.sub_joy = 1;
    assert_eq!(spectrum.update_on_user_request(MENU_JOY_KEMPSTON_ID, false), handled(HostJob::Nothing));
    assert_eq!(spectrum.state.sub_joy, 1);
    assert_eq!(spectrum.state.select_joystick(3, false), None);
    assert_eq!(spectrum.state.select_joystick(3, true), Some(Some(JoystickKind::Sinclair)));
    assert_eq!(spectrum.state.select_joystick(9, true), Some(None));
}

#[test]
fn the_keys_of_the_recorder_are_pressed() {
    let mut spectrum = session();
    spectrum.state.insert_tape();
    assert_eq!(spectrum.update_on_user_request(MENU_TAPE_PLAY_ID, true), handled(HostJob::Nothing));
    assert_eq!(spectrum.state.tape, Tape { running: true, tap: Some(TapKind::Reader) });
    assert_eq!(
        spectrum.update_on_user_request(MENU_TAPE_RECORD_ID, true),
        handled(HostJob::ReopenTape(TapKind::Writer))
    );
    assert_eq!(spectrum.state.tape, Tape { running: true, tap: Some(TapKind::Writer) });
    assert_eq!(spectrum.update_on_user_request(MENU_TAPE_RECORD_ID, true), handled(HostJob::Nothing));
    assert_eq!(spectrum.update_on_user_request(MENU_TAPE_STOP_ID, true), handled(HostJob::Nothing));
    assert_eq!(spectrum.state.tape, Tape { running: false, tap: Some(TapKind::Writer) });
    assert_eq!(
        spectrum.update_on_user_request(MENU_TAPE_PLAY_ID, true),
        handled(HostJob::ReopenTape(TapKind::Reader))
    );
    assert_eq!(spectrum.state.tape, Tape { running: true, tap: Some(TapKind::Reader) });
    assert_eq!(spectrum.update_on_user_request(MENU_TAPE_EJECT_ID, true), handled(HostJob::EjectTape));
    assert_eq!(spectrum.state.tape, Tape::new());
}

#[test]
fn tape_jobs_are_left_to_the_host() {
    let mut spectrum = session();
    spectrum.state.insert_tape();
    let before = spectrum.state;
    assert_eq!(FIRST_CHUNK, 1);
    assert_eq!(spectrum.update_on_user_request(MENU_TAPE_REWIND_ID, true), handled(HostJob::RewindTape(1)));
    assert_eq!(spectrum.update_on_user_request(MENU_TAPE_PREV_ID, true), handled(HostJob::PrevChunk));
    assert_eq!(spectrum.update_on_user_request(MENU_TAPE_NEXT_ID, true), handled(HostJob::NextChunk));
    assert_eq!(spectrum.update_on_user_request(MENU_TAPE_OPEN_ID, true), handled(HostJob::OpenTape));
    assert_eq!(spectrum.update_on_user_request(MENU_TAPE_SAVE_ID, true), handled(HostJob::SaveTape));
    assert_eq!(spectrum.state, before);
}

#[test]
fn requests_can_be_applied_as_commands() {
    let mut spectrum = session();
    assert_eq!(spectrum.apply(Command::Exit, false), UserRequest::Leave(Action::Exit));
    assert_eq!(
        spectrum.apply(Command::SelectJoystick(3), true),
        handled(HostJob::PlugJoystick(Some(JoystickKind::Sinclair)))
    );
    assert_eq!(spectrum.state.sub_joy, 1);
    assert_eq!(spectrum.apply(Command::ToggleTurbo, true), handled(HostJob::Nothing));
    assert!(spectrum.state.turbo);
}
