//! The one-line status of a session, shown as the window's title.
use vstd::prelude::*;
use vstd::string::*;
use crate::joystick::{spec_joystick_name, JoystickKind};
use crate::model::ModelReq;
use crate::state::EmulatorState;
use crate::tape::TapKind;

verus! {

/// The text of the digit `d`.
pub open spec fn spec_digit(d: nat) -> Seq<char> {
    if d == 0 {
        "0"@
    } else if d == 1 {
        "1"@
    } else if d == 2 {
        "2"@
    } else if d == 3 {
        "3"@
    } else if d == 4 {
        "4"@
    } else if d == 5 {
        "5"@
    } else if d == 6 {
        "6"@
    } else if d == 7 {
        "7"@
    } else if d == 8 {
        "8"@
    } else {
        "9"@
    }
}

/// The text of `n` in decimal digits, without leading zeros.
pub open spec fn spec_decimal(n: nat) -> Seq<char>
    decreases n,
{
    if n < 10 {
        spec_digit(n)
    } else {
        spec_decimal(n / 10) + spec_digit(n % 10)
    }
}

/// How the emulation runs, if not at its own pace: paused, or in turbo.
pub open spec fn spec_mode_text(state: EmulatorState) -> Seq<char> {
    if state.paused {
        " \u{23F8} "@
    } else if state.turbo {
        " \u{1F3CE}\u{FE0F} "@
    } else {
        Seq::empty()
    }
}

/// The joystick that is plugged in, with its number where it is not the
/// first of its device.
pub open spec fn spec_joystick_text(state: EmulatorState, joystick: Option<JoystickKind>) -> Seq<
    char,
> {
    match joystick {
        None => Seq::empty(),
        Some(kind) => if state.sub_joy != 0 {
            " \u{1F579} "@ + spec_joystick_name(kind) + " #"@ + spec_decimal(
                (state.sub_joy + 1) as nat,
            )
        } else {
            " \u{1F579} "@ + spec_joystick_name(kind)
        },
    }
}

/// The tape, if one is in: whether flash loading is on, whether it is heard,
/// and either that it plays or records, or the chunk it rests at.
pub open spec fn spec_tape_text(state: EmulatorState, chunk_no: u32, chunk_info: Seq<char>) -> Seq<
    char,
> {
    match state.tape.tap {
        None => Seq::empty(),
        Some(kind) => {
            let flash = if state.flash_tape {
                "\u{26A1}"@
            } else {
                " "@
            };
            let audible = if state.audible_tape {
                "\u{1F50A}"@
            } else {
                "\u{1F508}"@
            };
            let head = " \u{1F5AD}"@ + flash + audible;
            if state.tape.running {
                match kind {
                    TapKind::Reader => head + " \u{23F5}"@,
                    TapKind::Writer => head + " \u{23FA}"@,
                }
            } else {
                head + " "@ + spec_decimal(chunk_no as nat) + ": "@ + chunk_info
            }
        },
    }
}

/// The status line.
pub open spec fn spec_info(
    state: EmulatorState,
    model: ModelReq,
    joystick: Option<JoystickKind>,
    chunk_no: u32,
    chunk_info: Seq<char>,
) -> Seq<char> {
    "ZX Spectrum "@ + spec_decimal(model.spec_ram_kilobytes()) + "k"@ + spec_mode_text(state)
        + spec_joystick_text(state, joystick) + spec_tape_text(state, chunk_no, chunk_info)
}

fn digit(d: u8) -> (text: &'static str)
    requires
        d < 10,
    ensures
        text@ == spec_digit(d as nat),
{
    match d {
        0 => "0",
        1 => "1",
        2 => "2",
        3 => "3",
        4 => "4",
        5 => "5",
        6 => "6",
        7 => "7",
        8 => "8",
        _ => "9",
    }
}

/// The text of `n` in decimal digits, without leading zeros.
pub fn decimal(n: u128) -> (text: String)
    ensures
        text@ == spec_decimal(n as nat),
    decreases n,
{
    if n < 10 {
        String::from_str(digit(n as u8))
    } else {
        let mut text: String = decimal(n / 10);
        text.append(digit((n % 10) as u8));
        text
    }
}

fn mode_text(state: &EmulatorState) -> (text: &'static str)
    ensures
        text@ == spec_mode_text(*state),
{
    if state.paused {
        " \u{23F8} "
    } else if state.turbo {
        " \u{1F3CE}\u{FE0F} "
    } else {
        proof {
            reveal_strlit("");
            assert(""@ =~= Seq::<char>::empty());
        }
        ""
    }
}

fn joystick_text(state: &EmulatorState, joystick: Option<JoystickKind>) -> (text: String)
    ensures
        text@ == spec_joystick_text(*state, joystick),
{
    match joystick {
        None => String::new(),
        Some(kind) => {
            let mut text: String = String::from_str(" \u{1F579} ");
            let name: String = kind.name();
            text.append(name.as_str());
            if state.sub_joy != 0 {
                text.append(" #");
                let number: String = decimal(state.sub_joy as u128 + 1);
                text.append(number.as_str());
            }
            text
        },
    }
}

fn tape_text(state: &EmulatorState, chunk_no: u32, chunk_info: &str) -> (text: String)
    ensures
        text@ == spec_tape_text(*state, chunk_no, chunk_info@),
{
    match state.tape.tap {
        None => String::new(),
        Some(kind) => {
            let mut text: String = String::from_str(" \u{1F5AD}");
            text.append(
                if state.flash_tape {
                    "\u{26A1}"
                } else {
                    " "
                },
            );
            text.append(
                if state.audible_tape {
                    "\u{1F50A}"
                } else {
                    "\u{1F508}"
                },
            );
            if state.tape.running {
                text.append(
                    match kind {
                        TapKind::Reader => " \u{23F5}",
                        TapKind::Writer => " \u{23FA}",
                    },
                );
            } else {
                text.append(" ");
                let number: String = decimal(chunk_no as u128);
                text.append(number.as_str());
                text.append(": ");
                text.append(chunk_info);
            }
            text
        },
    }
}

impl EmulatorState {
    /// Whether the status line tells the chunk the tape rests at: a tape is
    /// in and its motor is off. Only then does the host have to look the
    /// chunk up in the tape file.
    pub open spec fn spec_shows_chunk(self) -> bool {
        self.tape.spec_is_inserted() && !self.tape.running
    }

    /// Whether the status line tells the chunk the tape rests at.
    pub fn shows_chunk(&self) -> (shown: bool)
        ensures
            shown == self.spec_shows_chunk(),
    {
        self.tape.is_inserted() && !self.tape.running
    }

    /// The status line of a session on `model`: the model's name; a sign where
    /// the emulation is paused or, if not, in turbo; the joystick plugged in;
    /// and the state of the tape.
    ///
    /// `chunk_no` and `chunk_info` are the number of the chunk the tape rests
    /// at and what the chunk holds. They are shown where
    /// [`EmulatorState::shows_chunk`] holds and not looked at otherwise.
    pub fn info(
        &self,
        model: ModelReq,
        joystick: Option<JoystickKind>,
        chunk_no: u32,
        chunk_info: &str,
    ) -> (info: String)
        ensures
            info@ == spec_info(*self, model, joystick, chunk_no, chunk_info@),
    {
        let mut info: String = String::from_str("ZX Spectrum ");
        let size: String = decimal(model.ram_kilobytes() as u128);
        info.append(size.as_str());
        info.append("k");
        info.append(mode_text(self));
        let joystick: String = joystick_text(self, joystick);
        info.append(joystick.as_str());
        let tape: String = tape_text(self, chunk_no, chunk_info);
        info.append(tape.as_str());
        info
    }
}

/// A digit's text is the one character that stands for it.
pub proof fn lemma_digit_text(d: nat)
    requires
        d < 10,
    ensures
        spec_digit(d).len() == 1,
        spec_digit(d)[0] as u32 == '0' as u32 + d,
{
    reveal_strlit("0");
    reveal_strlit("1");
    reveal_strlit("2");
    reveal_strlit("3");
    reveal_strlit("4");
    reveal_strlit("5");
    reveal_strlit("6");
    reveal_strlit("7");
    reveal_strlit("8");
    reveal_strlit("9");
}

/// A number's text has as many digits as the number needs, and its last
/// digit is the number's remainder by ten.
pub proof fn lemma_decimal_digits(n: nat)
    ensures
        spec_decimal(n).len() >= 1,
        n < 10 <==> spec_decimal(n).len() == 1,
        spec_decimal(n).last() as u32 == '0' as u32 + n % 10,
    decreases n,
{
    if n < 10 {
        lemma_digit_text(n);
    } else {
        lemma_decimal_digits(n / 10);
        lemma_digit_text(n % 10);
    }
}

} // verus!
