use crate::cpu::address::CpuAddress;
use crate::machine::cartridge_bootstrap::MachineBootstrapGprSource;
use vstd::prelude::*;

verus! {

pub const MI_INIT_MODE_PHYSICAL_ADDRESS: u32 = 0x0430_0000;
pub const MI_INIT_MODE_X105_WRITE_WORD: u32 = 0x0000_010f;
pub const MI_INIT_MODE_X105_INIT_LENGTH: u8 = 15;
pub const MI_INIT_MODE_X105_REPEATED_BYTE_COUNT: u8 = 16;
pub const MI_VERSION_PHYSICAL_ADDRESS: u32 = 0x0430_0004;
pub const MI_VERSION_STANDARD_RETAIL_NUS_WORD: u32 = 0x0202_0102;
pub const MI_SET_RDRAM_REGISTER_MODE_WORD: u32 = 0x0000_2000;
pub const MI_CLEAR_RDRAM_REGISTER_MODE_WORD: u32 = 0x0000_1000;
pub const MI_INTR_MASK_PHYSICAL_ADDRESS: u32 = 0x0430_000c;
pub const MI_CLEAR_DP_INTERRUPT_WORD: u32 = 0x0000_0800;
pub const MI_X105_CLEAR_ALL_INTERRUPT_MASKS_WORD: u32 = 0x0000_0555;

/// The CPU store that wrote an MI register.
#[derive(Debug, Clone, Copy, PartialEq, Eq, Structural)]
pub struct MachineMiCpuStoreProvenance {
    pub instruction_pc: CpuAddress,
    pub source_gpr: u8,
    pub source_lineage: MachineBootstrapGprSource,
    pub effective_address: u64,
    pub cpu_address: CpuAddress,
    pub physical_address: u32,
}

impl MachineMiCpuStoreProvenance {
    pub fn new(
        instruction_pc: CpuAddress,
        source_gpr: u8,
        source_lineage: MachineBootstrapGprSource,
        effective_address: u64,
        cpu_address: CpuAddress,
        physical_address: u32,
    ) -> (r: Self)
        ensures
            r == (MachineMiCpuStoreProvenance {
                instruction_pc,
                source_gpr,
                source_lineage,
                effective_address,
                cpu_address,
                physical_address,
            }),
    {
        Self {
            instruction_pc,
            source_gpr,
            source_lineage,
            effective_address,
            cpu_address,
            physical_address,
        }
    }

    pub fn instruction_pc(self) -> (r: CpuAddress)
        ensures
            r == self.instruction_pc,
    {
        self.instruction_pc
    }

    pub fn source_gpr(self) -> (r: u8)
        ensures
            r == self.source_gpr,
    {
        self.source_gpr
    }

    pub fn source_lineage(self) -> (r: MachineBootstrapGprSource)
        ensures
            r == self.source_lineage,
    {
        self.source_lineage
    }

    pub fn effective_address(self) -> (r: u64)
        ensures
            r == self.effective_address,
    {
        self.effective_address
    }

    pub fn cpu_address(self) -> (r: CpuAddress)
        ensures
            r == self.cpu_address,
    {
        self.cpu_address
    }

    pub fn physical_address(self) -> (r: u32)
        ensures
            r == self.physical_address,
    {
        self.physical_address
    }
}

/// The six interrupt lines the MI collects.
#[derive(Debug, Clone, Copy, PartialEq, Eq, Structural)]
pub enum MachineMiInterruptSource {
    Sp,
    Si,
    Ai,
    Vi,
    Pi,
    Dp,
}

impl MachineMiInterruptSource {
    pub open spec fn spec_index(self) -> int {
        match self {
            MachineMiInterruptSource::Sp => 0,
            MachineMiInterruptSource::Si => 1,
            MachineMiInterruptSource::Ai => 2,
            MachineMiInterruptSource::Vi => 3,
            MachineMiInterruptSource::Pi => 4,
            MachineMiInterruptSource::Dp => 5,
        }
    }

    pub fn index(self) -> (r: usize)
        ensures
            r == self.spec_index(),
    {
        match self {
            MachineMiInterruptSource::Sp => 0,
            MachineMiInterruptSource::Si => 1,
            MachineMiInterruptSource::Ai => 2,
            MachineMiInterruptSource::Vi => 3,
            MachineMiInterruptSource::Pi => 4,
            MachineMiInterruptSource::Dp => 5,
        }
    }
}

/// Pending and mask bits of each interrupt line, with the stores that cleared them.
#[derive(Debug, Clone, Copy)]
pub struct MachineMiInterruptState {
    pub pending: [bool; 6],
    pub masks: [bool; 6],
    pub pending_clear_provenance: [Option<MachineMiCpuStoreProvenance>; 6],
    pub mask_clear_provenance: Option<MachineMiCpuStoreProvenance>,
}

impl MachineMiInterruptState {
    /// Nothing pending, nothing masked in, no clears recorded.
    pub open spec fn spec_is_cold(self) -> bool {
        &&& self.pending@ == Seq::new(6, |i: int| false)
        &&& self.masks@ == Seq::new(6, |i: int| false)
        &&& self.pending_clear_provenance@ == Seq::new(
            6,
            |i: int| None::<MachineMiCpuStoreProvenance>,
        )
        &&& self.mask_clear_provenance is None
    }

    pub fn new() -> (r: Self)
        ensures
            r.spec_is_cold(),
    {
        let r = MachineMiInterruptState {
            pending: [false; 6],
            masks: [false; 6],
            pending_clear_provenance: [None; 6],
            mask_clear_provenance: None,
        };
        assert(r.pending@ =~= Seq::new(6, |i: int| false));
        assert(r.masks@ =~= Seq::new(6, |i: int| false));
        assert(r.pending_clear_provenance@ =~= Seq::new(
            6,
            |i: int| None::<MachineMiCpuStoreProvenance>,
        ));
        r
    }

    pub fn pending(self, source: MachineMiInterruptSource) -> (r: bool)
        ensures
            r == self.pending@[source.spec_index()],
    {
        self.pending[source.index()]
    }

    pub fn mask_enabled(self, source: MachineMiInterruptSource) -> (r: bool)
        ensures
            r == self.masks@[source.spec_index()],
    {
        self.masks[source.index()]
    }

    pub fn pending_clear_provenance(self, source: MachineMiInterruptSource) -> (r: Option<
        MachineMiCpuStoreProvenance,
    >)
        ensures
            r == self.pending_clear_provenance@[source.spec_index()],
    {
        self.pending_clear_provenance[source.index()]
    }

    pub fn mask_clear_provenance(self) -> (r: Option<MachineMiCpuStoreProvenance>)
        ensures
            r == self.mask_clear_provenance,
    {
        self.mask_clear_provenance
    }

    pub fn set_pending(&mut self, source: MachineMiInterruptSource)
        ensures
            final(self).pending@ == old(self).pending@.update(source.spec_index(), true),
            final(self).masks == old(self).masks,
            final(self).pending_clear_provenance == old(self).pending_clear_provenance,
            final(self).mask_clear_provenance == old(self).mask_clear_provenance,
    {
        self.pending[source.index()] = true;
    }

    pub fn clear_pending(
        &mut self,
        source: MachineMiInterruptSource,
        provenance: MachineMiCpuStoreProvenance,
    )
        ensures
            final(self).pending@ == old(self).pending@.update(source.spec_index(), false),
            final(self).pending_clear_provenance@ == old(self).pending_clear_provenance@.update(
                source.spec_index(),
                Some(provenance),
            ),
            final(self).masks == old(self).masks,
            final(self).mask_clear_provenance == old(self).mask_clear_provenance,
    {
        self.pending[source.index()] = false;
        self.pending_clear_provenance[source.index()] = Some(provenance);
    }

    pub fn clear_all_masks(&mut self, provenance: MachineMiCpuStoreProvenance)
        ensures
            final(self).masks@ == Seq::new(6, |i: int| false),
            final(self).mask_clear_provenance == Some(provenance),
            final(self).pending == old(self).pending,
            final(self).pending_clear_provenance == old(self).pending_clear_provenance,
    {
        self.masks = [false; 6];
        self.mask_clear_provenance = Some(provenance);
        assert(self.masks@ =~= Seq::new(6, |i: int| false));
    }
}

/// The MI_VERSION word and its four version bytes.
#[derive(Debug, Clone, Copy, PartialEq, Eq, Structural)]
pub struct MachineMiVersionState {
    pub word: u32,
}

proof fn lemma_version_bytes(w: u32)
    ensures
        w as u8 == (w % 0x100) as u8,
        (w >> 8u32) as u8 == (w / 0x100 % 0x100) as u8,
        (w >> 16u32) as u8 == (w / 0x1_0000 % 0x100) as u8,
        (w >> 24u32) as u8 == (w / 0x100_0000) as u8,
{
    assert(w as u8 == (w % 0x100) as u8 && (w >> 8u32) as u8 == (w / 0x100 % 0x100) as u8 && (w
        >> 16u32) as u8 == (w / 0x1_0000 % 0x100) as u8 && (w >> 24u32) as u8 == (w / 0x100_0000)
        as u8) by (bit_vector);
}

impl MachineMiVersionState {
    pub fn standard_retail_nus() -> (r: Self)
        ensures
            r.word == MI_VERSION_STANDARD_RETAIL_NUS_WORD,
    {
        Self { word: MI_VERSION_STANDARD_RETAIL_NUS_WORD }
    }

    pub fn word(self) -> (r: u32)
        ensures
            r == self.word,
    {
        self.word
    }

    /// Bits 7..0.
    pub fn io_version(self) -> (r: u8)
        ensures
            r == self.word % 0x100,
    {
        proof {
            lemma_version_bytes(self.word);
        }
        self.word as u8
    }

    /// Bits 15..8.
    pub fn rac_version(self) -> (r: u8)
        ensures
            r == self.word / 0x100 % 0x100,
    {
        proof {
            lemma_version_bytes(self.word);
        }
        (self.word >> 8) as u8
    }

    /// Bits 23..16.
    pub fn rdp_version(self) -> (r: u8)
        ensures
            r == self.word / 0x1_0000 % 0x100,
    {
        proof {
            lemma_version_bytes(self.word);
        }
        (self.word >> 16) as u8
    }

    /// Bits 31..24.
    pub fn rsp_version(self) -> (r: u8)
        ensures
            r == self.word / 0x100_0000,
    {
        proof {
            lemma_version_bytes(self.word);
        }
        (self.word >> 24) as u8
    }
}

/// The CPU store word that wrote MI_INIT_MODE.
#[derive(Debug, Clone, Copy, PartialEq, Eq, Structural)]
pub enum MachineMiInitModeSource {
    CpuStoreWord {
        instruction_pc: CpuAddress,
        source_gpr: u8,
        source_lineage: MachineBootstrapGprSource,
    },
}

impl MachineMiInitModeSource {
    pub fn instruction_pc(self) -> (r: CpuAddress)
        ensures
            r == self->instruction_pc,
    {
        match self {
            MachineMiInitModeSource::CpuStoreWord { instruction_pc, .. } => instruction_pc,
        }
    }

    pub fn source_gpr(self) -> (r: u8)
        ensures
            r == self->source_gpr,
    {
        match self {
            MachineMiInitModeSource::CpuStoreWord { source_gpr, .. } => source_gpr,
        }
    }

    pub fn source_lineage(self) -> (r: MachineBootstrapGprSource)
        ensures
            r == self->source_lineage,
    {
        match self {
            MachineMiInitModeSource::CpuStoreWord { source_lineage, .. } => source_lineage,
        }
    }
}

/// MI_INIT_MODE after the boot code's init-mode store.
#[derive(Debug, Clone, Copy, PartialEq, Eq, Structural)]
pub struct MachineMiInitModeState {
    pub init_length: u8,
    pub init_mode: bool,
    pub source: MachineMiInitModeSource,
}

impl MachineMiInitModeState {
    /// The state the boot code's store of the init-mode word leaves: init mode on with
    /// length 15.
    pub fn from_exact_x105_cpu_store(
        word: u32,
        instruction_pc: CpuAddress,
        source_gpr: u8,
        source_lineage: MachineBootstrapGprSource,
    ) -> (r: Self)
        requires
            word == MI_INIT_MODE_X105_WRITE_WORD,
        ensures
            r == (MachineMiInitModeState {
                init_length: MI_INIT_MODE_X105_INIT_LENGTH,
                init_mode: true,
                source: MachineMiInitModeSource::CpuStoreWord {
                    instruction_pc,
                    source_gpr,
                    source_lineage,
                },
            }),
    {
        Self {
            init_length: MI_INIT_MODE_X105_INIT_LENGTH,
            init_mode: true,
            source: MachineMiInitModeSource::CpuStoreWord {
                instruction_pc,
                source_gpr,
                source_lineage,
            },
        }
    }

    pub fn init_length(self) -> (r: u8)
        ensures
            r == self.init_length,
    {
        self.init_length
    }

    pub fn init_mode(self) -> (r: bool)
        ensures
            r == self.init_mode,
    {
        self.init_mode
    }

    pub fn source(self) -> (r: MachineMiInitModeSource)
        ensures
            r == self.source,
    {
        self.source
    }
}

/// The repeated-byte transfer that an init-mode store arms.
#[derive(Debug, Clone, Copy, PartialEq, Eq, Structural)]
pub struct MachineMiInitTransferState {
    pub source_init_length: u8,
    pub repeated_byte_count: u8,
    pub command_word: u32,
    pub source: MachineMiInitModeSource,
}

impl MachineMiInitTransferState {
    pub open spec fn spec_from_init_mode(state: MachineMiInitModeState) -> Self {
        MachineMiInitTransferState {
            source_init_length: state.init_length,
            repeated_byte_count: MI_INIT_MODE_X105_REPEATED_BYTE_COUNT,
            command_word: MI_INIT_MODE_X105_WRITE_WORD,
            source: state.source,
        }
    }

    pub fn from_exact_x105_init_mode(state: MachineMiInitModeState) -> (r: Self)
        ensures
            r == Self::spec_from_init_mode(state),
    {
        Self {
            source_init_length: state.init_length(),
            repeated_byte_count: MI_INIT_MODE_X105_REPEATED_BYTE_COUNT,
            command_word: MI_INIT_MODE_X105_WRITE_WORD,
            source: state.source(),
        }
    }

    pub fn source_init_length(self) -> (r: u8)
        ensures
            r == self.source_init_length,
    {
        self.source_init_length
    }

    pub fn repeated_byte_count(self) -> (r: u8)
        ensures
            r == self.repeated_byte_count,
    {
        self.repeated_byte_count
    }

    pub fn command_word(self) -> (r: u32)
        ensures
            r == self.command_word,
    {
        self.command_word
    }

    pub fn source(self) -> (r: MachineMiInitModeSource)
        ensures
            r == self.source,
    {
        self.source
    }
}

/// The CPU store word that wrote the RDRAM register-mode command.
#[derive(Debug, Clone, Copy, PartialEq, Eq, Structural)]
pub enum MachineMiRdramRegisterModeSource {
    CpuStoreWord {
        instruction_pc: CpuAddress,
        source_gpr: u8,
        source_lineage: MachineBootstrapGprSource,
    },
}

impl MachineMiRdramRegisterModeSource {
    pub fn instruction_pc(self) -> (r: CpuAddress)
        ensures
            r == self->instruction_pc,
    {
        match self {
            MachineMiRdramRegisterModeSource::CpuStoreWord { instruction_pc, .. } => instruction_pc,
        }
    }

    pub fn source_gpr(self) -> (r: u8)
        ensures
            r == self->source_gpr,
    {
        match self {
            MachineMiRdramRegisterModeSource::CpuStoreWord { source_gpr, .. } => source_gpr,
        }
    }

    pub fn source_lineage(self) -> (r: MachineBootstrapGprSource)
        ensures
            r == self->source_lineage,
    {
        match self {
            MachineMiRdramRegisterModeSource::CpuStoreWord { source_lineage, .. } => source_lineage,
        }
    }
}

/// The RDRAM register mode after one command word.
#[derive(Debug, Clone, Copy, PartialEq, Eq, Structural)]
pub struct MachineMiRdramRegisterModeState {
    pub command_word: u32,
    pub enabled: bool,
    pub source: MachineMiRdramRegisterModeSource,
}

/// The set word enables the mode, the clear word disables it, any other word keeps it.
pub open spec fn spec_rdram_register_mode_enabled(command_word: u32, previously_enabled: bool) -> bool {
    if command_word == MI_SET_RDRAM_REGISTER_MODE_WORD {
        true
    } else if command_word == MI_CLEAR_RDRAM_REGISTER_MODE_WORD {
        false
    } else {
        previously_enabled
    }
}

impl MachineMiRdramRegisterModeState {
    pub fn from_cpu_store_word(
        command_word: u32,
        previously_enabled: bool,
        instruction_pc: CpuAddress,
        source_gpr: u8,
        source_lineage: MachineBootstrapGprSource,
    ) -> (r: Self)
        ensures
            r == (MachineMiRdramRegisterModeState {
                command_word,
                enabled: spec_rdram_register_mode_enabled(command_word, previously_enabled),
                source: MachineMiRdramRegisterModeSource::CpuStoreWord {
                    instruction_pc,
                    source_gpr,
                    source_lineage,
                },
            }),
    {
        let enabled = if command_word == MI_SET_RDRAM_REGISTER_MODE_WORD {
            true
        } else if command_word == MI_CLEAR_RDRAM_REGISTER_MODE_WORD {
            false
        } else {
            previously_enabled
        };
        Self {
            command_word,
            enabled,
            source: MachineMiRdramRegisterModeSource::CpuStoreWord {
                instruction_pc,
                source_gpr,
                source_lineage,
            },
        }
    }

    pub fn command_word(self) -> (r: u32)
        ensures
            r == self.command_word,
    {
        self.command_word
    }

    pub fn enabled(self) -> (r: bool)
        ensures
            r == self.enabled,
    {
        self.enabled
    }

    pub fn source(self) -> (r: MachineMiRdramRegisterModeSource)
        ensures
            r == self.source,
    {
        self.source
    }
}

/// The MIPS interface registers.
#[derive(Debug, Clone, Copy)]
pub struct Mi {
    pub version: MachineMiVersionState,
    pub init_mode: Option<MachineMiInitModeState>,
    pub init_transfer: Option<MachineMiInitTransferState>,
    pub rdram_register_mode: Option<MachineMiRdramRegisterModeState>,
    pub interrupts: MachineMiInterruptState,
}

impl Mi {
    /// The MI at reset: retail version word, nothing written, no interrupt activity.
    pub open spec fn spec_is_cold(self) -> bool {
        &&& self.version.word == MI_VERSION_STANDARD_RETAIL_NUS_WORD
        &&& self.init_mode is None
        &&& self.init_transfer is None
        &&& self.rdram_register_mode is None
        &&& self.interrupts.spec_is_cold()
    }

    pub fn new() -> (r: Self)
        ensures
            r.spec_is_cold(),
    {
        Mi {
            version: MachineMiVersionState::standard_retail_nus(),
            init_mode: None,
            init_transfer: None,
            rdram_register_mode: None,
            interrupts: MachineMiInterruptState::new(),
        }
    }

    pub fn version_state(self) -> (r: MachineMiVersionState)
        ensures
            r == self.version,
    {
        self.version
    }

    pub fn init_mode_state(self) -> (r: Option<MachineMiInitModeState>)
        ensures
            r == self.init_mode,
    {
        self.init_mode
    }

    pub fn init_transfer_state(self) -> (r: Option<MachineMiInitTransferState>)
        ensures
            r == self.init_transfer,
    {
        self.init_transfer
    }

    pub fn rdram_register_mode_state(self) -> (r: Option<MachineMiRdramRegisterModeState>)
        ensures
            r == self.rdram_register_mode,
    {
        self.rdram_register_mode
    }

    pub fn rdram_register_mode_enabled(self) -> (r: bool)
        ensures
            r == (match self.rdram_register_mode {
                Some(state) => state.enabled,
                None => false,
            }),
    {
        match self.rdram_register_mode {
            Some(state) => state.enabled(),
            None => false,
        }
    }

    pub fn interrupt_state(self) -> (r: MachineMiInterruptState)
        ensures
            r == self.interrupts,
    {
        self.interrupts
    }

    /// A completed PI DMA raises the PI interrupt.
    pub fn set_pi_pending_from_dma(&mut self)
        ensures
            final(self).interrupts.pending@ == old(self).interrupts.pending@.update(4, true),
            final(self).interrupts.masks == old(self).interrupts.masks,
            final(self).interrupts.pending_clear_provenance == old(
                self,
            ).interrupts.pending_clear_provenance,
            final(self).interrupts.mask_clear_provenance == old(
                self,
            ).interrupts.mask_clear_provenance,
            final(self).version == old(self).version,
            final(self).init_mode == old(self).init_mode,
            final(self).init_transfer == old(self).init_transfer,
            final(self).rdram_register_mode == old(self).rdram_register_mode,
    {
        self.interrupts.set_pending(MachineMiInterruptSource::Pi);
    }

    pub fn clear_pending_interrupt(
        &mut self,
        source: MachineMiInterruptSource,
        provenance: MachineMiCpuStoreProvenance,
    )
        ensures
            final(self).interrupts.pending@ == old(self).interrupts.pending@.update(
                source.spec_index(),
                false,
            ),
            final(self).interrupts.pending_clear_provenance@ == old(
                self,
            ).interrupts.pending_clear_provenance@.update(source.spec_index(), Some(provenance)),
            final(self).interrupts.masks == old(self).interrupts.masks,
            final(self).interrupts.mask_clear_provenance == old(
                self,
            ).interrupts.mask_clear_provenance,
            final(self).version == old(self).version,
            final(self).init_mode == old(self).init_mode,
            final(self).init_transfer == old(self).init_transfer,
            final(self).rdram_register_mode == old(self).rdram_register_mode,
    {
        self.interrupts.clear_pending(source, provenance);
    }

    pub fn clear_all_interrupt_masks(&mut self, provenance: MachineMiCpuStoreProvenance)
        ensures
            final(self).interrupts.masks@ == Seq::new(6, |i: int| false),
            final(self).interrupts.mask_clear_provenance == Some(provenance),
            final(self).interrupts.pending == old(self).interrupts.pending,
            final(self).interrupts.pending_clear_provenance == old(
                self,
            ).interrupts.pending_clear_provenance,
            final(self).version == old(self).version,
            final(self).init_mode == old(self).init_mode,
            final(self).init_transfer == old(self).init_transfer,
            final(self).rdram_register_mode == old(self).rdram_register_mode,
    {
        self.interrupts.clear_all_masks(provenance);
    }

    /// Records the init-mode store and arms its repeated-byte transfer.
    pub fn apply_init_mode_store(&mut self, state: MachineMiInitModeState)
        ensures
            final(self).init_mode == Some(state),
            final(self).init_transfer == Some(MachineMiInitTransferState::spec_from_init_mode(state)),
            final(self).version == old(self).version,
            final(self).rdram_register_mode == old(self).rdram_register_mode,
            final(self).interrupts == old(self).interrupts,
    {
        self.init_mode = Some(state);
        self.init_transfer = Some(MachineMiInitTransferState::from_exact_x105_init_mode(state));
    }

    /// The armed transfer ran: init mode and the transfer are both gone.
    pub fn consume_init_transfer(&mut self)
        ensures
            final(self).init_mode is None,
            final(self).init_transfer is None,
            final(self).version == old(self).version,
            final(self).rdram_register_mode == old(self).rdram_register_mode,
            final(self).interrupts == old(self).interrupts,
    {
        self.init_mode = None;
        self.init_transfer = None;
    }

    pub fn apply_rdram_register_mode_store(&mut self, state: MachineMiRdramRegisterModeState)
        ensures
            final(self).rdram_register_mode == Some(state),
            final(self).version == old(self).version,
            final(self).init_mode == old(self).init_mode,
            final(self).init_transfer == old(self).init_transfer,
            final(self).interrupts == old(self).interrupts,
    {
        self.rdram_register_mode = Some(state);
    }
}

impl Default for Mi {
    fn default() -> (r: Self)
        ensures
            r.spec_is_cold(),
    {
        Mi::new()
    }
}

} // verus!
