use crate::cpu::address::CpuAddress;
use crate::machine::cartridge_bootstrap::MachineBootstrapGprSource;
use vstd::prelude::*;

verus! {

pub const PI_DRAM_ADDR_PHYSICAL_ADDRESS: u32 = 0x0460_0000;
pub const PI_CART_ADDR_PHYSICAL_ADDRESS: u32 = 0x0460_0004;
pub const PI_RD_LEN_PHYSICAL_ADDRESS: u32 = 0x0460_0008;
pub const PI_WR_LEN_PHYSICAL_ADDRESS: u32 = 0x0460_000c;
pub const PI_STATUS_PHYSICAL_ADDRESS: u32 = 0x0460_0010;
pub const PI_X105_WR_LEN_WORD: u32 = 0x000f_ffff;
pub const PI_X105_DMA_BYTE_COUNT: u32 = 0x0010_0000;
pub const PI_STATUS_CLEAR_INTERRUPT_WORD: u32 = 0x0000_0002;
pub const PI_DOMAIN_ONE_ADDRESS_TWO_BASE: u32 = 0x1000_0000;

/// The CPU store that wrote a PI register.
#[derive(Debug, Clone, Copy, PartialEq, Eq, Structural)]
pub struct MachinePiCpuStoreProvenance {
    pub instruction_pc: CpuAddress,
    pub source_gpr: u8,
    pub source_lineage: MachineBootstrapGprSource,
    pub effective_address: u64,
    pub cpu_address: CpuAddress,
    pub physical_address: u32,
}

impl MachinePiCpuStoreProvenance {
    pub fn new(
        instruction_pc: CpuAddress,
        source_gpr: u8,
        source_lineage: MachineBootstrapGprSource,
        effective_address: u64,
        cpu_address: CpuAddress,
        physical_address: u32,
    ) -> (r: Self)
        ensures
            r == (MachinePiCpuStoreProvenance {
                instruction_pc,
                source_gpr,
                source_lineage,
                effective_address,
                cpu_address,
                physical_address,
            }),
    {
        Self {
            instruction_pc,
            source_gpr,
            source_lineage,
            effective_address,
            cpu_address,
            physical_address,
        }
    }

    pub fn instruction_pc(self) -> (r: CpuAddress)
        ensures
            r == self.instruction_pc,
    {
        self.instruction_pc
    }

    pub fn source_gpr(self) -> (r: u8)
        ensures
            r == self.source_gpr,
    {
        self.source_gpr
    }

    pub fn source_lineage(self) -> (r: MachineBootstrapGprSource)
        ensures
            r == self.source_lineage,
    {
        self.source_lineage
    }

    pub fn effective_address(self) -> (r: u64)
        ensures
            r == self.effective_address,
    {
        self.effective_address
    }

    pub fn cpu_address(self) -> (r: CpuAddress)
        ensures
            r == self.cpu_address,
    {
        self.cpu_address
    }

    pub fn physical_address(self) -> (r: u32)
        ensures
            r == self.physical_address,
    {
        self.physical_address
    }
}

/// A PI register word the CPU programmed.
#[derive(Debug, Clone, Copy, PartialEq, Eq, Structural)]
pub struct MachinePiProgrammedRegisterState {
    pub raw_word: u32,
    pub source: MachinePiCpuStoreProvenance,
}

impl MachinePiProgrammedRegisterState {
    pub fn new(raw_word: u32, source: MachinePiCpuStoreProvenance) -> (r: Self)
        ensures
            r == (MachinePiProgrammedRegisterState { raw_word, source }),
    {
        Self { raw_word, source }
    }

    pub fn raw_word(self) -> (r: u32)
        ensures
            r == self.raw_word,
    {
        self.raw_word
    }

    pub fn source(self) -> (r: MachinePiCpuStoreProvenance)
        ensures
            r == self.source,
    {
        self.source
    }
}

#[derive(Debug, Clone, Copy, PartialEq, Eq, Structural)]
pub enum MachinePiDmaDirection {
    CartridgeToRdram,
}

#[derive(Debug, Clone, Copy, PartialEq, Eq, Structural)]
pub enum MachinePiDmaCompletion {
    AtomicFunctional,
}

/// One cartridge-to-RDRAM DMA, completed atomically when its length was written.
#[derive(Debug, Clone, Copy, PartialEq, Eq, Structural)]
pub struct MachinePiCompletedDmaState {
    pub trigger_instruction_pc: CpuAddress,
    pub programmed_dram_address: MachinePiProgrammedRegisterState,
    pub programmed_cartridge_address: MachinePiProgrammedRegisterState,
    pub programmed_write_length: MachinePiProgrammedRegisterState,
    pub cartridge_bus_address: u32,
    pub cartridge_byte_offset: u32,
    pub rdram_physical_address: u32,
    pub byte_count: u32,
    pub direction: MachinePiDmaDirection,
    pub completion: MachinePiDmaCompletion,
}

impl MachinePiCompletedDmaState {
    pub fn new(
        trigger_instruction_pc: CpuAddress,
        programmed_dram_address: MachinePiProgrammedRegisterState,
        programmed_cartridge_address: MachinePiProgrammedRegisterState,
        programmed_write_length: MachinePiProgrammedRegisterState,
        cartridge_bus_address: u32,
        cartridge_byte_offset: u32,
        rdram_physical_address: u32,
        byte_count: u32,
    ) -> (r: Self)
        ensures
            r == (MachinePiCompletedDmaState {
                trigger_instruction_pc,
                programmed_dram_address,
                programmed_cartridge_address,
                programmed_write_length,
                cartridge_bus_address,
                cartridge_byte_offset,
                rdram_physical_address,
                byte_count,
                direction: MachinePiDmaDirection::CartridgeToRdram,
                completion: MachinePiDmaCompletion::AtomicFunctional,
            }),
    {
        Self {
            trigger_instruction_pc,
            programmed_dram_address,
            programmed_cartridge_address,
            programmed_write_length,
            cartridge_bus_address,
            cartridge_byte_offset,
            rdram_physical_address,
            byte_count,
            direction: MachinePiDmaDirection::CartridgeToRdram,
            completion: MachinePiDmaCompletion::AtomicFunctional,
        }
    }

    pub fn trigger_instruction_pc(self) -> (r: CpuAddress)
        ensures
            r == self.trigger_instruction_pc,
    {
        self.trigger_instruction_pc
    }

    pub fn programmed_dram_address(self) -> (r: MachinePiProgrammedRegisterState)
        ensures
            r == self.programmed_dram_address,
    {
        self.programmed_dram_address
    }

    pub fn programmed_cartridge_address(self) -> (r: MachinePiProgrammedRegisterState)
        ensures
            r == self.programmed_cartridge_address,
    {
        self.programmed_cartridge_address
    }

    pub fn programmed_write_length(self) -> (r: MachinePiProgrammedRegisterState)
        ensures
            r == self.programmed_write_length,
    {
        self.programmed_write_length
    }

    pub fn cartridge_bus_address(self) -> (r: u32)
        ensures
            r == self.cartridge_bus_address,
    {
        self.cartridge_bus_address
    }

    pub fn cartridge_byte_offset(self) -> (r: u32)
        ensures
            r == self.cartridge_byte_offset,
    {
        self.cartridge_byte_offset
    }

    pub fn rdram_physical_address(self) -> (r: u32)
        ensures
            r == self.rdram_physical_address,
    {
        self.rdram_physical_address
    }

    pub fn byte_count(self) -> (r: u32)
        ensures
            r == self.byte_count,
    {
        self.byte_count
    }

    pub fn direction(self) -> (r: MachinePiDmaDirection)
        ensures
            r == self.direction,
    {
        self.direction
    }

    pub fn completion(self) -> (r: MachinePiDmaCompletion)
        ensures
            r == self.completion,
    {
        self.completion
    }
}

/// The CPU's write of the clear-interrupt command to PI_STATUS.
#[derive(Debug, Clone, Copy, PartialEq, Eq, Structural)]
pub struct MachinePiStatusClearState {
    pub command_word: u32,
    pub source: MachinePiCpuStoreProvenance,
}

impl MachinePiStatusClearState {
    pub fn new(source: MachinePiCpuStoreProvenance) -> (r: Self)
        ensures
            r == (MachinePiStatusClearState { command_word: PI_STATUS_CLEAR_INTERRUPT_WORD, source }),
    {
        Self { command_word: PI_STATUS_CLEAR_INTERRUPT_WORD, source }
    }

    pub fn command_word(self) -> (r: u32)
        ensures
            r == self.command_word,
    {
        self.command_word
    }

    pub fn source(self) -> (r: MachinePiCpuStoreProvenance)
        ensures
            r == self.source,
    {
        self.source
    }
}

/// The peripheral interface registers and its last completed DMA.
#[derive(Debug, Clone, Copy, PartialEq, Eq, Structural)]
pub struct Pi {
    pub dram_address: Option<MachinePiProgrammedRegisterState>,
    pub cartridge_address: Option<MachinePiProgrammedRegisterState>,
    pub write_length: Option<MachinePiProgrammedRegisterState>,
    pub dma_busy: bool,
    pub io_busy: bool,
    pub error: bool,
    pub completed_dma: Option<MachinePiCompletedDmaState>,
    pub last_status_clear: Option<MachinePiStatusClearState>,
}

/// PI_STATUS: DMA busy (bit 0), I/O busy (bit 1), error (bit 2).
pub open spec fn spec_pi_status_word(pi: Pi) -> u32 {
    ((if pi.dma_busy {
        1int
    } else {
        0int
    }) + (if pi.io_busy {
        2int
    } else {
        0int
    }) + (if pi.error {
        4int
    } else {
        0int
    })) as u32
}

/// The PI at reset: idle, nothing programmed or completed.
pub open spec fn spec_cold_pi() -> Pi {
    Pi {
        dram_address: None,
        cartridge_address: None,
        write_length: None,
        dma_busy: false,
        io_busy: false,
        error: false,
        completed_dma: None,
        last_status_clear: None,
    }
}

impl Pi {
    pub fn new() -> (r: Self)
        ensures
            r == spec_cold_pi(),
    {
        Pi {
            dram_address: None,
            cartridge_address: None,
            write_length: None,
            dma_busy: false,
            io_busy: false,
            error: false,
            completed_dma: None,
            last_status_clear: None,
        }
    }

    pub fn dram_address_state(self) -> (r: Option<MachinePiProgrammedRegisterState>)
        ensures
            r == self.dram_address,
    {
        self.dram_address
    }

    pub fn cartridge_address_state(self) -> (r: Option<MachinePiProgrammedRegisterState>)
        ensures
            r == self.cartridge_address,
    {
        self.cartridge_address
    }

    pub fn write_length_state(self) -> (r: Option<MachinePiProgrammedRegisterState>)
        ensures
            r == self.write_length,
    {
        self.write_length
    }

    pub fn completed_dma_state(self) -> (r: Option<MachinePiCompletedDmaState>)
        ensures
            r == self.completed_dma,
    {
        self.completed_dma
    }

    pub fn last_status_clear_state(self) -> (r: Option<MachinePiStatusClearState>)
        ensures
            r == self.last_status_clear,
    {
        self.last_status_clear
    }

    pub fn status_word(self) -> (r: u32)
        ensures
            r == spec_pi_status_word(self),
    {
        let dma: u32 = if self.dma_busy {
            1
        } else {
            0
        };
        let io: u32 = if self.io_busy {
            1
        } else {
            0
        };
        let error: u32 = if self.error {
            1
        } else {
            0
        };
        assert(dma < 2 && io < 2 && error < 2 ==> dma | (io << 1u32) | (error << 2u32) == dma + io
            * 2 + error * 4) by (bit_vector);
        dma | (io << 1) | (error << 2)
    }

    pub fn apply_dram_address(&mut self, state: MachinePiProgrammedRegisterState)
        ensures
            *final(self) == (Pi { dram_address: Some(state), ..*old(self) }),
    {
        self.dram_address = Some(state);
    }

    pub fn apply_cartridge_address(&mut self, state: MachinePiProgrammedRegisterState)
        ensures
            *final(self) == (Pi { cartridge_address: Some(state), ..*old(self) }),
    {
        self.cartridge_address = Some(state);
    }

    /// Records a completed DMA: its length becomes the programmed write length and the PI
    /// is idle again.
    pub fn apply_completed_dma(&mut self, state: MachinePiCompletedDmaState)
        ensures
            *final(self) == (Pi {
                write_length: Some(state.programmed_write_length),
                completed_dma: Some(state),
                dma_busy: false,
                io_busy: false,
                error: false,
                ..*old(self)
            }),
    {
        self.write_length = Some(state.programmed_write_length());
        self.completed_dma = Some(state);
        self.dma_busy = false;
        self.io_busy = false;
        self.error = false;
    }

    pub fn apply_status_clear(&mut self, state: MachinePiStatusClearState)
        ensures
            *final(self) == (Pi { last_status_clear: Some(state), ..*old(self) }),
    {
        self.last_status_clear = Some(state);
    }
}

/// A completed DMA always leaves PI_STATUS idle (zero).
pub proof fn lemma_completed_dma_leaves_pi_idle(pi: Pi, state: MachinePiCompletedDmaState)
    ensures
        spec_pi_status_word(
            Pi {
                write_length: Some(state.programmed_write_length),
                completed_dma: Some(state),
                dma_busy: false,
                io_busy: false,
                error: false,
                ..pi
            },
        ) == 0,
{
}

impl Default for Pi {
    fn default() -> (r: Self)
        ensures
            r == spec_cold_pi(),
    {
        Pi::new()
    }
}

} // verus!
