//! The joysticks that can be plugged into the computer's bus.
//!
//! Which device an index stands for, and what a device is called, is asked of
//! the `spectrusty` crate, whose devices the host plugs in.
use vstd::prelude::*;
use vstd::string::*;
use spectrusty::bus::joystick::JoystickSelect;

verus! {

/// A joystick device. The Sinclair device holds two joysticks.
#[derive(Debug, Clone, Copy, PartialEq, Eq, Structural)]
pub enum JoystickKind {
    Kempston,
    Fuller,
    Sinclair,
    Cursor,
}

/// The menu's choice of a joystick: the device to plug in, or none, and the
/// index of the joystick within the device.
#[derive(Debug, Clone, Copy, PartialEq, Eq, Structural)]
pub struct JoystickChoice {
    pub device: Option<JoystickKind>,
    pub sub_joy: usize,
}

/// The largest index that stands for a joystick.
pub const MAX_JOYSTICK_INDEX: usize = 4;

/// The device and the joystick within it that `global_index` stands for,
/// counting through all joysticks of all devices: Kempston, Fuller, the right
/// and the left Sinclair, Cursor.
pub open spec fn spec_joystick_with_index(global_index: usize) -> Option<(JoystickKind, usize)> {
    if global_index == 0 {
        Some((JoystickKind::Kempston, 0usize))
    } else if global_index == 1 {
        Some((JoystickKind::Fuller, 0usize))
    } else if global_index == 2 {
        Some((JoystickKind::Sinclair, 0usize))
    } else if global_index == 3 {
        Some((JoystickKind::Sinclair, 1usize))
    } else if global_index == 4 {
        Some((JoystickKind::Cursor, 0usize))
    } else {
        None
    }
}

/// What a device is called.
pub open spec fn spec_joystick_name(kind: JoystickKind) -> Seq<char> {
    match kind {
        JoystickKind::Kempston => "Kempston"@,
        JoystickKind::Fuller => "Fuller"@,
        JoystickKind::Sinclair => "Sinclair"@,
        JoystickKind::Cursor => "Cursor"@,
    }
}

/// `JoystickSelect::new_with_index` of spectrusty, with the device it makes
/// told by its kind. The indices 0 to 4 give Kempston, Fuller, Sinclair with
/// its first joystick, Sinclair with its second, and Cursor; any other index
/// gives nothing.
#[verifier::external_body]
fn joystick_with_index(global_index: usize) -> (found: Option<(JoystickKind, usize)>)
    ensures
        found == spec_joystick_with_index(global_index),
{
    match JoystickSelect::new_with_index(global_index) {
        Some((JoystickSelect::Kempston(..), index)) => Some((JoystickKind::Kempston, index)),
        Some((JoystickSelect::Fuller(..), index)) => Some((JoystickKind::Fuller, index)),
        Some((JoystickSelect::Sinclair(..), index)) => Some((JoystickKind::Sinclair, index)),
        Some((JoystickSelect::Cursor(..), index)) => Some((JoystickKind::Cursor, index)),
        None => None,
    }
}

/// The name that spectrusty's `JoystickSelect` gives to a device when it is
/// turned into a `&str`: "Kempston", "Fuller", "Sinclair" or "Cursor".
#[verifier::external_body]
fn joystick_name(kind: JoystickKind) -> (name: String)
    ensures
        name@ == spec_joystick_name(kind),
{
    let device = match kind {
        JoystickKind::Kempston => JoystickSelect::Kempston(Default::default()),
        JoystickKind::Fuller => JoystickSelect::Fuller(Default::default()),
        JoystickKind::Sinclair => JoystickSelect::Sinclair(Default::default(), Default::default()),
        JoystickKind::Cursor => JoystickSelect::Cursor(Default::default()),
    };
    <&str>::from(device).to_string()
}

impl JoystickKind {
    /// How many joysticks the device holds.
    pub open spec fn spec_len(self) -> nat {
        if self == JoystickKind::Sinclair {
            2
        } else {
            1
        }
    }

    /// How many joysticks the device holds.
    pub fn len(self) -> (len: usize)
        ensures
            len == self.spec_len(),
    {
        match self {
            JoystickKind::Sinclair => 2,
            _ => 1,
        }
    }

    /// What the device is called.
    pub fn name(self) -> (name: String)
        ensures
            name@ == spec_joystick_name(self),
    {
        joystick_name(self)
    }
}

impl JoystickChoice {
    /// The choice that `joy_index` stands for. An index that stands for no
    /// joystick chooses to have none plugged in.
    pub open spec fn spec_with_index(joy_index: usize) -> JoystickChoice {
        match spec_joystick_with_index(joy_index) {
            Some((kind, index)) => JoystickChoice { device: Some(kind), sub_joy: index },
            None => JoystickChoice { device: None, sub_joy: 0 },
        }
    }

    /// The choice that `joy_index` stands for. An index that stands for no
    /// joystick chooses to have none plugged in.
    pub fn with_index(joy_index: usize) -> (choice: JoystickChoice)
        ensures
            choice == JoystickChoice::spec_with_index(joy_index),
    {
        match joystick_with_index(joy_index) {
            Some((kind, index)) => JoystickChoice { device: Some(kind), sub_joy: index },
            None => JoystickChoice { device: None, sub_joy: 0 },
        }
    }
}

/// A chosen joystick is one that its device holds.
pub proof fn lemma_choice_within_device(joy_index: usize)
    ensures
        match JoystickChoice::spec_with_index(joy_index).device {
            Some(kind) => JoystickChoice::spec_with_index(joy_index).sub_joy < kind.spec_len(),
            None => JoystickChoice::spec_with_index(joy_index).sub_joy == 0,
        },
        JoystickChoice::spec_with_index(joy_index).device is Some <==> joy_index
            <= MAX_JOYSTICK_INDEX,
{
}

} // verus!
