//! The hardware models a session can run on, and what is fixed by each.
use vstd::prelude::*;

verus! {

/// One of the emulated hardware models.
#[derive(Debug, Clone, Copy, PartialEq, Eq, Structural)]
pub enum ModelReq {
    Spectrum16,
    Spectrum48,
    Spectrum128,
}

/// What the frame loop hands back to its caller when it ends.
#[derive(Debug, Clone, Copy, PartialEq, Eq, Structural)]
pub enum Action {
    ChangeModel(ModelReq),
    Exit,
}

/// The size of one memory page, and the address of the first byte of RAM.
pub const PAGE_SIZE: usize = 0x4000;

/// The byte that stands for memory a model does not have.
pub const FILL_BYTE: u8 = 0xFF;

/// The T-states in one frame of the 16k and 48k models.
pub const ULA_FRAME_TSTATES: u32 = 69_888;

/// The T-states in one frame of the 128k model.
pub const ULA128_FRAME_TSTATES: u32 = 70_908;

/// The CPU clock of the 16k and 48k models, in T-states per second.
pub const ULA_CPU_HZ: u32 = 3_500_000;

/// The CPU clock of the 128k model, in T-states per second.
pub const ULA128_CPU_HZ: u32 = 3_546_900;

/// The nanoseconds that `frame_tstates` T-states take at `cpu_hz` T-states
/// per second, rounded down.
pub open spec fn frame_nanos(frame_tstates: int, cpu_hz: int) -> int {
    frame_tstates * 1_000_000_000 / cpu_hz
}

/// `HostConfig::frame_duration_nanos` of spectrusty's PAL `Ula`, the chipset
/// of the 16k and 48k models. It divides the frame's 69 888 T-states by the
/// clock of 3.5 MHz; the contract gives the quotient.
#[verifier::external_body]
fn ula_frame_duration_nanos() -> (nanos: u32)
    ensures
        nanos == 19_968_000,
{
    <spectrusty::chip::ula::UlaPAL<spectrusty::memory::Memory48k> as spectrusty::chip::HostConfig>::frame_duration_nanos()
}

/// `HostConfig::frame_duration_nanos` of spectrusty's `Ula128`, the chipset of
/// the 128k model. It divides the frame's 70 908 T-states by the clock of
/// 3.5469 MHz; the contract gives the quotient, rounded down.
#[verifier::external_body]
fn ula128_frame_duration_nanos() -> (nanos: u32)
    ensures
        nanos == 19_991_541,
{
    <spectrusty::chip::ula128::Ula128 as spectrusty::chip::HostConfig>::frame_duration_nanos()
}

impl ModelReq {
    /// The bytes of RAM that the CPU can address at one time: all that
    /// follows the first page.
    pub open spec fn spec_ram_size(self) -> nat {
        match self {
            ModelReq::Spectrum16 => 0x4000,
            ModelReq::Spectrum48 => 0xC000,
            ModelReq::Spectrum128 => 0xC000,
        }
    }

    /// The kilobytes of RAM the model is named after.
    pub open spec fn spec_ram_kilobytes(self) -> nat {
        match self {
            ModelReq::Spectrum16 => 16,
            ModelReq::Spectrum48 => 48,
            ModelReq::Spectrum128 => 128,
        }
    }

    /// The T-states in one frame.
    pub open spec fn spec_frame_tstates(self) -> int {
        match self {
            ModelReq::Spectrum128 => ULA128_FRAME_TSTATES as int,
            _ => ULA_FRAME_TSTATES as int,
        }
    }

    /// The CPU clock in T-states per second.
    pub open spec fn spec_cpu_hz(self) -> int {
        match self {
            ModelReq::Spectrum128 => ULA128_CPU_HZ as int,
            _ => ULA_CPU_HZ as int,
        }
    }

    /// The real time of one frame in nanoseconds: the unit of pacing.
    pub open spec fn spec_frame_duration_nanos(self) -> int {
        frame_nanos(self.spec_frame_tstates(), self.spec_cpu_hz())
    }

    /// The bytes of RAM that the CPU can address at one time.
    pub fn ram_size(self) -> (size: usize)
        ensures
            size == self.spec_ram_size(),
    {
        match self {
            ModelReq::Spectrum16 => 0x4000,
            ModelReq::Spectrum48 => 0xC000,
            ModelReq::Spectrum128 => 0xC000,
        }
    }

    /// The kilobytes of RAM the model is named after.
    pub fn ram_kilobytes(self) -> (kilobytes: usize)
        ensures
            kilobytes == self.spec_ram_kilobytes(),
    {
        match self {
            ModelReq::Spectrum16 => 16,
            ModelReq::Spectrum48 => 48,
            ModelReq::Spectrum128 => 128,
        }
    }

    /// The T-states in one frame.
    pub fn frame_tstates(self) -> (tstates: u32)
        ensures
            tstates == self.spec_frame_tstates(),
    {
        match self {
            ModelReq::Spectrum128 => ULA128_FRAME_TSTATES,
            _ => ULA_FRAME_TSTATES,
        }
    }

    /// The CPU clock in T-states per second.
    pub fn cpu_hz(self) -> (hz: u32)
        ensures
            hz == self.spec_cpu_hz(),
    {
        match self {
            ModelReq::Spectrum128 => ULA128_CPU_HZ,
            _ => ULA_CPU_HZ,
        }
    }

    /// The real time of one frame in nanoseconds, as the chipset gives it.
    pub fn frame_duration_nanos(self) -> (nanos: u32)
        ensures
            nanos == self.spec_frame_duration_nanos(),
    {
        match self {
            ModelReq::Spectrum128 => {
                assert(frame_nanos(70_908, 3_546_900) == 19_991_541) by (nonlinear_arith);
                ula128_frame_duration_nanos()
            },
            _ => {
                assert(frame_nanos(69_888, 3_500_000) == 19_968_000) by (nonlinear_arith);
                ula_frame_duration_nanos()
            },
        }
    }

    /// Whether a session on `self` already runs on what `request` asks for.
    pub fn is_same(self, request: ModelReq) -> (same: bool)
        ensures
            same == (self == request),
    {
        self == request
    }
}

} // verus!
