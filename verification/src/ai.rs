use crate::cpu::address::CpuAddress;
use crate::machine::cartridge_bootstrap::MachineBootstrapGprSource;
use vstd::prelude::*;

verus! {

pub const AI_CONTROL_PHYSICAL_ADDRESS: u32 = 0x0450_0008;
pub const AI_STATUS_PHYSICAL_ADDRESS: u32 = 0x0450_000c;
pub const AI_DAC_RATE_PHYSICAL_ADDRESS: u32 = 0x0450_0010;
pub const AI_BIT_RATE_PHYSICAL_ADDRESS: u32 = 0x0450_0014;
pub const AI_CONTROL_DMA_ENABLE_MASK: u32 = 0x0000_0001;
pub const AI_DAC_RATE_MASK: u32 = 0x0000_3fff;
pub const AI_BIT_RATE_MASK: u32 = 0x0000_000f;

/// The CPU store that wrote an audio interface register.
#[derive(Debug, Clone, Copy, PartialEq, Eq, Structural)]
pub struct MachineAiCpuStoreProvenance {
    pub instruction_pc: CpuAddress,
    pub source_gpr: u8,
    pub source_lineage: MachineBootstrapGprSource,
    pub effective_address: u64,
    pub cpu_address: CpuAddress,
    pub physical_address: u32,
}

impl MachineAiCpuStoreProvenance {
    pub fn new(
        instruction_pc: CpuAddress,
        source_gpr: u8,
        source_lineage: MachineBootstrapGprSource,
        effective_address: u64,
        cpu_address: CpuAddress,
        physical_address: u32,
    ) -> (r: Self)
        ensures
            r == (MachineAiCpuStoreProvenance {
                instruction_pc,
                source_gpr,
                source_lineage,
                effective_address,
                cpu_address,
                physical_address,
            }),
    {
        Self {
            instruction_pc,
            source_gpr,
            source_lineage,
            effective_address,
            cpu_address,
            physical_address,
        }
    }

    pub fn instruction_pc(self) -> (r: CpuAddress)
        ensures
            r == self.instruction_pc,
    {
        self.instruction_pc
    }

    pub fn source_gpr(self) -> (r: u8)
        ensures
            r == self.source_gpr,
    {
        self.source_gpr
    }

    pub fn source_lineage(self) -> (r: MachineBootstrapGprSource)
        ensures
            r == self.source_lineage,
    {
        self.source_lineage
    }

    pub fn effective_address(self) -> (r: u64)
        ensures
            r == self.effective_address,
    {
        self.effective_address
    }

    pub fn cpu_address(self) -> (r: CpuAddress)
        ensures
            r == self.cpu_address,
    {
        self.cpu_address
    }

    pub fn physical_address(self) -> (r: u32)
        ensures
            r == self.physical_address,
    {
        self.physical_address
    }
}

proof fn lemma_mask_keeps_word(w: u32)
    ensures
        w & 0x0000_3fffu32 == w % 0x4000,
        w & 0x0000_000fu32 == w % 0x10,
        w & 0x0000_0001u32 == w % 2,
{
    assert(w & 0x0000_3fffu32 == w % 0x4000 && w & 0x0000_000fu32 == w % 0x10 && w
        & 0x0000_0001u32 == w % 2) by (bit_vector);
}

/// The AI_CONTROL word last written.
#[derive(Debug, Clone, Copy, PartialEq, Eq, Structural)]
pub struct MachineAiControlState {
    pub raw_word: u32,
    pub provenance: MachineAiCpuStoreProvenance,
}

impl MachineAiControlState {
    /// Records a written register word; only the register's defined bits may be set.
    pub fn new(raw_word: u32, provenance: MachineAiCpuStoreProvenance) -> (r: Self)
        requires
            raw_word & !AI_CONTROL_DMA_ENABLE_MASK == 0,
        ensures
            r == (MachineAiControlState { raw_word, provenance }),
    {
        Self { raw_word, provenance }
    }

    pub fn raw_word(self) -> (r: u32)
        ensures
            r == self.raw_word,
    {
        self.raw_word
    }

    /// Whether DMA is enabled (bit 0).
    pub fn dma_enabled(self) -> (r: bool)
        ensures
            r == (self.raw_word % 2 == 1),
    {
        proof {
            lemma_mask_keeps_word(self.raw_word);
        }
        self.raw_word & AI_CONTROL_DMA_ENABLE_MASK != 0
    }

    pub fn provenance(self) -> (r: MachineAiCpuStoreProvenance)
        ensures
            r == self.provenance,
    {
        self.provenance
    }
}

/// The AI_DACRATE word last written.
#[derive(Debug, Clone, Copy, PartialEq, Eq, Structural)]
pub struct MachineAiDacRateState {
    pub raw_word: u32,
    pub provenance: MachineAiCpuStoreProvenance,
}

impl MachineAiDacRateState {
    /// Records a written register word; only the register's defined bits may be set.
    pub fn new(raw_word: u32, provenance: MachineAiCpuStoreProvenance) -> (r: Self)
        requires
            raw_word & !AI_DAC_RATE_MASK == 0,
        ensures
            r == (MachineAiDacRateState { raw_word, provenance }),
    {
        Self { raw_word, provenance }
    }

    pub fn raw_word(self) -> (r: u32)
        ensures
            r == self.raw_word,
    {
        self.raw_word
    }

    /// The 14-bit DAC rate divider.
    pub fn dac_rate(self) -> (r: u16)
        ensures
            r == self.raw_word % 0x4000,
    {
        proof {
            lemma_mask_keeps_word(self.raw_word);
        }
        (self.raw_word & AI_DAC_RATE_MASK) as u16
    }

    pub fn provenance(self) -> (r: MachineAiCpuStoreProvenance)
        ensures
            r == self.provenance,
    {
        self.provenance
    }
}

/// The AI_BITRATE word last written.
#[derive(Debug, Clone, Copy, PartialEq, Eq, Structural)]
pub struct MachineAiBitRateState {
    pub raw_word: u32,
    pub provenance: MachineAiCpuStoreProvenance,
}

impl MachineAiBitRateState {
    /// Records a written register word; only the register's defined bits may be set.
    pub fn new(raw_word: u32, provenance: MachineAiCpuStoreProvenance) -> (r: Self)
        requires
            raw_word & !AI_BIT_RATE_MASK == 0,
        ensures
            r == (MachineAiBitRateState { raw_word, provenance }),
    {
        Self { raw_word, provenance }
    }

    pub fn raw_word(self) -> (r: u32)
        ensures
            r == self.raw_word,
    {
        self.raw_word
    }

    /// The 4-bit bit-rate divider.
    pub fn bit_rate(self) -> (r: u8)
        ensures
            r == self.raw_word % 0x10,
    {
        proof {
            lemma_mask_keeps_word(self.raw_word);
        }
        (self.raw_word & AI_BIT_RATE_MASK) as u8
    }

    pub fn provenance(self) -> (r: MachineAiCpuStoreProvenance)
        ensures
            r == self.provenance,
    {
        self.provenance
    }
}

/// The audio interface registers the CPU has written.
#[derive(Debug, Clone, Copy, PartialEq, Eq, Structural)]
pub struct Ai {
    pub control: Option<MachineAiControlState>,
    pub dac_rate: Option<MachineAiDacRateState>,
    pub bit_rate: Option<MachineAiBitRateState>,
}

impl Ai {
    pub fn new() -> (r: Self)
        ensures
            r == (Ai { control: None, dac_rate: None, bit_rate: None }),
    {
        Ai { control: None, dac_rate: None, bit_rate: None }
    }

    pub fn control_state(&self) -> (r: Option<MachineAiControlState>)
        ensures
            r == self.control,
    {
        self.control
    }

    pub fn dac_rate_state(&self) -> (r: Option<MachineAiDacRateState>)
        ensures
            r == self.dac_rate,
    {
        self.dac_rate
    }

    pub fn bit_rate_state(&self) -> (r: Option<MachineAiBitRateState>)
        ensures
            r == self.bit_rate,
    {
        self.bit_rate
    }

    pub fn apply_control(&mut self, state: MachineAiControlState)
        ensures
            *final(self) == (Ai { control: Some(state), ..*old(self) }),
    {
        self.control = Some(state);
    }

    pub fn apply_dac_rate(&mut self, state: MachineAiDacRateState)
        ensures
            *final(self) == (Ai { dac_rate: Some(state), ..*old(self) }),
    {
        self.dac_rate = Some(state);
    }

    pub fn apply_bit_rate(&mut self, state: MachineAiBitRateState)
        ensures
            *final(self) == (Ai { bit_rate: Some(state), ..*old(self) }),
    {
        self.bit_rate = Some(state);
    }
}

} // verus!
