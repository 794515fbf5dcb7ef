//! Carrying a running machine over to another hardware model.
//!
//! The host takes out of the old chipset what is to live on: the RAM that the
//! CPU can address, the border colour and the device on the bus. Together
//! with the CPU, the state of the program and what waits for the next frame
//! they make a [`ZxSpectrumModel`], which is turned here into the one of the
//! model asked for. The host builds the new chipset with its own ROM and puts
//! in what it is handed back.
use vstd::prelude::*;
use spectrusty::chip::Ula128MemFlags;
use crate::model::{ModelReq, FILL_BYTE};
use crate::spectrum::ZxSpectrum;
use crate::state::EmulatorState;

verus! {

/// What a machine is made of, as far as a change of model is concerned.
///
/// `C` is the CPU and `D` the device on the bus; both are carried as they
/// are.
pub struct ZxSpectrumModel<C, D> {
    /// The hardware model.
    pub model: ModelReq,
    pub cpu: C,
    /// The device on the bus, such as a joystick port.
    pub device: D,
    /// The colour of the border.
    pub border: u8,
    /// The RAM that the CPU can address, from its lowest address up.
    pub ram: Vec<u8>,
    /// A non-maskable interrupt waits to be triggered.
    pub nmi_request: bool,
    /// A reset waits to be made; a hard one if `Some(true)`.
    pub reset_request: Option<bool>,
    /// The state of the emulator program, the tape recorder with it.
    pub state: EmulatorState,
}

/// A [`ZxSpectrumModel`] with its RAM as a sequence of bytes.
pub ghost struct ModelView<C, D> {
    pub model: ModelReq,
    pub cpu: C,
    pub device: D,
    pub border: u8,
    pub ram: Seq<u8>,
    pub nmi_request: bool,
    pub reset_request: Option<bool>,
    pub state: EmulatorState,
}

/// Where in the memory of a chipset the RAM is found that the CPU can
/// address.
#[derive(Debug, Clone, Copy, PartialEq, Eq, Structural)]
pub enum RamSource {
    /// The memory is not paged: all of its RAM can be addressed.
    WholeRam,
    /// The memory is paged: the RAM that can be addressed is what is paged in
    /// at the pages from `first` to `last`, in this order.
    Pages { first: u8, last: u8 },
}

/// What became of a machine that was to change its model.
pub enum ModelChange<C, D> {
    /// It runs on the model asked for already and is handed back as it came.
    Kept(ZxSpectrumModel<C, D>),
    /// It has been carried over. Where the new model pages its memory,
    /// `mem_port` is the value that the host forces onto its memory port, so
    /// that the machine goes on in the one layout it knows until it is reset.
    /// The host also starts its sound synthesizer afresh: nothing of the old
    /// machine's sound is carried over.
    Changed { machine: ZxSpectrumModel<C, D>, mem_port: Option<u8> },
}

/// `Ula128MemFlags::ROM_BANK | Ula128MemFlags::LOCK_MMU` of spectrusty, as the
/// value of the memory port: bit 4 selects the ROM that holds the BASIC of
/// the 48k model, bit 5 locks the paging until the next reset.
#[verifier::external_body]
fn legacy_mode_flags() -> (bits: u8)
    ensures
        bits == 0x30,
{
    (Ula128MemFlags::ROM_BANK | Ula128MemFlags::LOCK_MMU).bits()
}

/// The value forced onto the memory port of a model after a machine was
/// carried over to it, where the model has such a port.
pub open spec fn spec_mem_port(model: ModelReq) -> Option<u8> {
    if model == ModelReq::Spectrum128 {
        Some(0x30u8)
    } else {
        None
    }
}

impl ModelReq {
    /// Where the RAM that the CPU can address is found.
    pub open spec fn spec_ram_source(self) -> RamSource {
        if self == ModelReq::Spectrum128 {
            RamSource::Pages { first: 1, last: 3 }
        } else {
            RamSource::WholeRam
        }
    }

    /// Where the host finds the RAM that the CPU can address when it takes
    /// it out of the chipset: the first page of the address space holds ROM.
    pub fn ram_source(self) -> (source: RamSource)
        ensures
            source == self.spec_ram_source(),
            match source {
                RamSource::WholeRam => true,
                RamSource::Pages { first, last } => first <= last && (last - first + 1)
                    * crate::model::PAGE_SIZE == self.spec_ram_size(),
            },
    {
        match self {
            ModelReq::Spectrum128 => RamSource::Pages { first: 1, last: 3 },
            _ => RamSource::WholeRam,
        }
    }
}

impl<C, D> ModelView<C, D> {
    /// The RAM is as large as the model says.
    pub open spec fn wf(self) -> bool {
        self.ram.len() == self.model.spec_ram_size()
    }

    /// The byte at `index` of the RAM read as a stream that does not end:
    /// past the end of the RAM it gives the fill byte.
    pub open spec fn ram_stream(self, index: int) -> u8 {
        if 0 <= index < self.ram.len() {
            self.ram[index]
        } else {
            FILL_BYTE
        }
    }

    /// The first `len` bytes of the RAM read as a stream.
    pub open spec fn read_ram(self, len: nat) -> Seq<u8> {
        Seq::new(len, |index: int| self.ram_stream(index))
    }

    /// The machine carried over to the model `request`: its RAM is cut or
    /// filled up to the size of that model, all else is as it was. A machine
    /// that runs on `request` already stays as it is.
    pub open spec fn change_model(self, request: ModelReq) -> ModelView<C, D> {
        if self.model == request {
            self
        } else {
            ModelView { model: request, ram: self.read_ram(request.spec_ram_size()), ..self }
        }
    }
}

impl<C, D> View for ZxSpectrumModel<C, D> {
    type V = ModelView<C, D>;

    open spec fn view(&self) -> ModelView<C, D> {
        ModelView {
            model: self.model,
            cpu: self.cpu,
            device: self.device,
            border: self.border,
            ram: self.ram@,
            nmi_request: self.nmi_request,
            reset_request: self.reset_request,
            state: self.state,
        }
    }
}

impl<C, D> ZxSpectrumModel<C, D> {
    /// Whether the RAM is as large as the model says.
    pub fn is_wf(&self) -> (wf: bool)
        ensures
            wf == self@.wf(),
    {
        self.ram.len() == self.model.ram_size()
    }

    /// The colour of the border.
    pub fn border_color(&self) -> (border: u8)
        ensures
            border == self.border,
    {
        self.border
    }

    /// The RAM that the CPU can address.
    pub fn as_mem_ref(&self) -> (mem: &Vec<u8>)
        ensures
            mem@ == self.ram@,
    {
        &self.ram
    }

    /// The first `len` bytes of the RAM read as a stream that does not end:
    /// past the end of the RAM it gives the fill byte.
    pub fn read_ram(&self, len: usize) -> (bytes: Vec<u8>)
        ensures
            bytes@ == self@.read_ram(len as nat),
    {
        let mut bytes: Vec<u8> = Vec::new();
        let mut index: usize = 0;
        while index < len
            invariant
                index <= len,
                bytes@.len() == index,
                forall|i: int| 0 <= i < index ==> bytes@[i] == self@.ram_stream(i),
            decreases len - index,
        {
            let byte: u8 = if index < self.ram.len() {
                self.ram[index]
            } else {
                FILL_BYTE
            };
            bytes.push(byte);
            index = index + 1;
        }
        assert(bytes@ =~= self@.read_ram(len as nat));
        bytes
    }

    /// Takes the machine apart for its CPU.
    pub fn into_cpu(self) -> (cpu: C)
        ensures
            cpu == self.cpu,
    {
        self.cpu
    }

    /// Takes the machine apart for its CPU and the state of the program.
    pub fn into_cpu_and_state(self) -> (parts: (C, EmulatorState))
        ensures
            parts == (self.cpu, self.state),
    {
        (self.cpu, self.state)
    }

    /// Takes the machine apart for its CPU, the device on its bus and the
    /// state of the program.
    pub fn into_cpu_device_and_state(self) -> (parts: (C, D, EmulatorState))
        ensures
            parts == (self.cpu, self.device, self.state),
    {
        (self.cpu, self.device, self.state)
    }

    /// Builds the session that goes on around the new chipset `ula`: it has
    /// the CPU and the program's state of the machine, and what waited for
    /// the next frame, an interrupt or a reset, still waits. The device is
    /// handed out for the host to put on the bus of the chipset.
    pub fn into_spectrum<U>(self, ula: U) -> (parts: (ZxSpectrum<C, U>, D))
        ensures
            parts.0 == (ZxSpectrum {
                cpu: self.cpu,
                ula,
                nmi_request: self.nmi_request,
                reset_request: self.reset_request,
                state: self.state,
            }),
            parts.1 == self.device,
    {
        (
            ZxSpectrum {
                cpu: self.cpu,
                ula,
                nmi_request: self.nmi_request,
                reset_request: self.reset_request,
                state: self.state,
            },
            self.device,
        )
    }

    /// Carries the machine over to the model `request`.
    ///
    /// A machine that runs on `request` already is handed back as it came.
    /// Otherwise the new machine has the CPU, the device, the border colour
    /// and the program's state of the old one, and the interrupt or reset
    /// that waited for the next frame still waits. Its RAM starts with the
    /// RAM of the old one: cut where the new model has less, filled up with
    /// the fill byte where it has more.
    pub fn change_model(self, request: ModelReq) -> (change: ModelChange<C, D>)
        ensures
            match change {
                ModelChange::Kept(machine) => self.model == request && machine == self,
                ModelChange::Changed { machine, mem_port } => {
                    &&& self.model != request
                    &&& machine@ == self@.change_model(request)
                    &&& mem_port == spec_mem_port(request)
                },
            },
    {
        if self.model.is_same(request) {
            return ModelChange::Kept(self);
        }
        let ram: Vec<u8> = self.read_ram(request.ram_size());
        let border: u8 = self.border_color();
        let nmi_request: bool = self.nmi_request;
        let reset_request: Option<bool> = self.reset_request;
        let (cpu, device, state) = self.into_cpu_device_and_state();
        let mem_port: Option<u8> = match request {
            ModelReq::Spectrum128 => Some(legacy_mode_flags()),
            _ => None,
        };
        ModelChange::Changed {
            machine: ZxSpectrumModel {
                model: request,
                cpu,
                device,
                border,
                ram,
                nmi_request,
                reset_request,
                state,
            },
            mem_port,
        }
    }
}

impl<C, D> ModelChange<C, D> {
    /// Whether the host starts its sound synthesizer afresh: after every
    /// change of model.
    pub fn resets_audio(&self) -> (resets: bool)
        ensures
            resets == (self is Changed),
    {
        match self {
            ModelChange::Kept(_) => false,
            ModelChange::Changed { .. } => true,
        }
    }

    /// The machine, changed or not.
    pub fn into_machine(self) -> (machine: ZxSpectrumModel<C, D>)
        ensures
            machine == (match self {
                ModelChange::Kept(machine) => machine,
                ModelChange::Changed { machine, mem_port } => machine,
            }),
    {
        match self {
            ModelChange::Kept(machine) => machine,
            ModelChange::Changed { machine, mem_port: _ } => machine,
        }
    }
}

/// A change of model is always made: the machine that comes of it runs on
/// the model asked for and has a RAM of that model's size.
pub proof fn lemma_change_is_total<C, D>(machine: ModelView<C, D>, request: ModelReq)
    requires
        machine.wf(),
    ensures
        machine.change_model(request).model == request,
        machine.change_model(request).wf(),
{
}

/// A change to the model that the machine runs on changes nothing.
pub proof fn lemma_same_model_is_kept<C, D>(machine: ModelView<C, D>)
    ensures
        machine.change_model(machine.model) == machine,
{
}

/// A change of model carries the CPU, the device, the border colour and the
/// state of the program, the tape recorder with it, over as they are; an
/// interrupt or a reset that waited for the next frame still waits.
pub proof fn lemma_change_carries_over<C, D>(machine: ModelView<C, D>, request: ModelReq)
    ensures
        machine.change_model(request).cpu == machine.cpu,
        machine.change_model(request).device == machine.device,
        machine.change_model(request).border == machine.border,
        machine.change_model(request).state == machine.state,
        machine.change_model(request).nmi_request == machine.nmi_request,
        machine.change_model(request).reset_request == machine.reset_request,
{
}

/// A change to a model with no more RAM keeps the first bytes of the RAM, as
/// many as the new model has, and drops the rest.
pub proof fn lemma_change_truncates<C, D>(machine: ModelView<C, D>, request: ModelReq)
    requires
        machine.wf(),
        request.spec_ram_size() <= machine.model.spec_ram_size(),
    ensures
        machine.change_model(request).ram == machine.ram.take(request.spec_ram_size() as int),
{
    assert(machine.change_model(request).ram =~= machine.ram.take(
        request.spec_ram_size() as int,
    ));
}

/// A change to a model with no less RAM keeps every byte of the RAM and
/// fills what the new model has beyond with the fill byte.
pub proof fn lemma_change_pads<C, D>(machine: ModelView<C, D>, request: ModelReq)
    requires
        machine.wf(),
        request.spec_ram_size() >= machine.model.spec_ram_size(),
    ensures
        machine.change_model(request).ram.take(machine.ram.len() as int) == machine.ram,
        forall|i: int|
            machine.ram.len() <= i < request.spec_ram_size() ==> machine.change_model(request).ram[i]
                == FILL_BYTE,
{
    assert(machine.change_model(request).ram.take(machine.ram.len() as int) =~= machine.ram);
}

/// A machine that is carried over to a model with no less RAM and back again
/// is the machine it was: every byte of its RAM, its CPU and all else.
pub proof fn lemma_round_trip<C, D>(machine: ModelView<C, D>, other: ModelReq)
    requires
        machine.wf(),
        other.spec_ram_size() >= machine.model.spec_ram_size(),
    ensures
        machine.change_model(other).change_model(machine.model) == machine,
{
    let there = machine.change_model(other);
    let back = there.change_model(machine.model);
    assert(back.ram =~= machine.ram);
}

} // verus!
