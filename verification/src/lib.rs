//! The verified core of a ZX Spectrum emulator host: the rules that pace
//! frames, drive the tape recorder, lay out audio frames, answer menu
//! requests and carry a running machine over to another hardware model.
//!
//! The chipset emulation, the window, the sound device and the tape file
//! stay outside: the host program performs what these rules decide and
//! reports back what happened.
use vstd::prelude::*;

pub mod audio;
pub mod joystick;
pub mod menus;
pub mod migrate;
pub mod model;
pub mod requests;
pub mod scheduler;
pub mod spectrum;
pub mod state;
pub mod status;
pub mod tape;

verus! {

/// Declares the process aware of per-monitor display scaling where the
/// platform asks for it. On this platform nothing has to be done.
pub fn set_dpi_awareness() -> (r: Result<(), String>)
    ensures
        r is Ok,
{
    Ok(())
}

} // verus!
