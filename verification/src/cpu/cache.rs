use super::address::CpuAddress;
use super::{Cpu, CpuState};
use crate::bytes::{
    lemma_patch_frame, lemma_u16_round_trip, lemma_u32_round_trip, lemma_u64_round_trip,
    patch_be_u16, patch_be_u32, patch_be_u64, read_be_u16, read_be_u32, read_be_u64, spec_be_u16,
    spec_be_u32, spec_be_u64, spec_patch, spec_u16_be_bytes, spec_u32_be_bytes, spec_u64_be_bytes,
};
use crate::machine::cartridge_bootstrap::MachineBootstrapGprSource;
use vstd::prelude::*;

verus! {

pub const PRIMARY_INSTRUCTION_CACHE_SIZE_BYTES: usize = 0x4000;

pub const PRIMARY_INSTRUCTION_CACHE_LINE_SIZE_BYTES: usize = 0x20;

pub const PRIMARY_INSTRUCTION_CACHE_LINE_COUNT: usize = PRIMARY_INSTRUCTION_CACHE_SIZE_BYTES
    / PRIMARY_INSTRUCTION_CACHE_LINE_SIZE_BYTES;

pub const PRIMARY_DATA_CACHE_SIZE_BYTES: usize = 0x2000;

pub const PRIMARY_DATA_CACHE_LINE_SIZE_BYTES: usize = 0x10;

pub const PRIMARY_DATA_CACHE_LINE_COUNT: usize = PRIMARY_DATA_CACHE_SIZE_BYTES
    / PRIMARY_DATA_CACHE_LINE_SIZE_BYTES;

pub const PRIMARY_CACHE_TAG_LO_PHYSICAL_TAG_MASK: u32 = 0x0fff_ff00;

pub const PRIMARY_CACHE_TAG_LO_STATE_SHIFT: u32 = 6;

pub const PRIMARY_CACHE_TAG_LO_STATE_MASK: u32 = 0x3;

/// The instruction and source register behind one COP0 TagLo/TagHi write.
#[derive(Debug, Clone, Copy, PartialEq, Eq, Structural)]
pub struct MachineCop0TagWriteProvenance {
    pub instruction_pc: CpuAddress,
    pub source_gpr: u8,
    pub source_lineage: MachineBootstrapGprSource,
}

impl MachineCop0TagWriteProvenance {
    pub fn new(
        instruction_pc: CpuAddress,
        source_gpr: u8,
        source_lineage: MachineBootstrapGprSource,
    ) -> (r: Self)
        ensures
            r == (MachineCop0TagWriteProvenance { instruction_pc, source_gpr, source_lineage }),
    {
        Self { instruction_pc, source_gpr, source_lineage }
    }

    pub fn instruction_pc(self) -> (r: CpuAddress)
        ensures
            r == self.instruction_pc,
    {
        self.instruction_pc
    }

    pub fn source_gpr(self) -> (r: u8)
        ensures
            r == self.source_gpr,
    {
        self.source_gpr
    }

    pub fn source_lineage(self) -> (r: MachineBootstrapGprSource)
        ensures
            r == self.source_lineage,
    {
        self.source_lineage
    }
}

/// One written TagLo or TagHi word.
#[derive(Debug, Clone, Copy, PartialEq, Eq, Structural)]
pub struct MachineCop0TagState {
    pub raw_word: u32,
    pub provenance: MachineCop0TagWriteProvenance,
}

/// The primary cache state field of a TagLo word: bits 7..6.
pub open spec fn spec_tag_primary_state(raw_word: u32) -> u8 {
    (raw_word as int / 0x40 % 4) as u8
}

/// The primary physical tag of a TagLo word: its bits 27..8 name physical address bits 31..12.
pub open spec fn spec_tag_primary_physical_tag(raw_word: u32) -> u32 {
    (raw_word as int / 0x100 % 0x10_0000 * 0x1000) as u32
}

proof fn lemma_tag_lo_fields(w: u32)
    by (bit_vector)
    ensures
        (w >> 6u32) & 3u32 == (w / 0x40u32) % 4u32,
        (w & 0x0fff_ff00u32) << 4u32 == ((w / 0x100u32) % 0x10_0000u32) * 0x1000u32,
{
}

/// Line indices, tags and offsets by mask agree with division and remainder.
proof fn lemma_line_address_bits(x: usize, a: u32)
    ensures
        (x / 32usize) & 511usize == (x / 32usize) % 512usize,
        (x / 16usize) & 511usize == (x / 16usize) % 512usize,
        x & 31usize == x % 32usize,
        x & 15usize == x % 16usize,
        a & 0xffff_c000u32 == a - a % 0x4000u32,
        a & 0xffff_e000u32 == a - a % 0x2000u32,
{
    lemma_line_offset_bits(x);
    lemma_line_tag_bits(a);
}

proof fn lemma_line_offset_bits(x: usize)
    by (bit_vector)
    ensures
        (x / 32usize) & 511usize == (x / 32usize) % 512usize,
        (x / 16usize) & 511usize == (x / 16usize) % 512usize,
        x & 31usize == x % 32usize,
        x & 15usize == x % 16usize,
{
}

proof fn lemma_line_tag_bits(a: u32)
    by (bit_vector)
    ensures
        a & 0xffff_c000u32 == a - a % 0x4000u32,
        a & 0xffff_e000u32 == a - a % 0x2000u32,
{
}

impl MachineCop0TagState {
    pub fn new(raw_word: u32, provenance: MachineCop0TagWriteProvenance) -> (r: Self)
        ensures
            r == (MachineCop0TagState { raw_word, provenance }),
    {
        Self { raw_word, provenance }
    }

    pub fn raw_word(self) -> (r: u32)
        ensures
            r == self.raw_word,
    {
        self.raw_word
    }

    pub fn provenance(self) -> (r: MachineCop0TagWriteProvenance)
        ensures
            r == self.provenance,
    {
        self.provenance
    }

    pub fn primary_state(self) -> (r: u8)
        ensures
            r == spec_tag_primary_state(self.raw_word),
            r < 4,
    {
        let w = self.raw_word;
        proof {
            lemma_tag_lo_fields(w);
        }
        ((w >> PRIMARY_CACHE_TAG_LO_STATE_SHIFT) & PRIMARY_CACHE_TAG_LO_STATE_MASK) as u8
    }

    pub fn primary_physical_tag(self) -> (r: u32)
        ensures
            r == spec_tag_primary_physical_tag(self.raw_word),
    {
        let w = self.raw_word;
        proof {
            lemma_tag_lo_fields(w);
        }
        (w & PRIMARY_CACHE_TAG_LO_PHYSICAL_TAG_MASK) << 4
    }
}

#[derive(Debug, Clone, Copy, PartialEq, Eq, Structural)]
pub enum MachinePrimaryCacheIndexStoreTagTarget {
    Instruction,
    Data,
}

#[derive(Debug, Clone, Copy, PartialEq, Eq, Structural)]
pub enum MachinePrimaryCacheHitInvalidateTarget {
    Instruction,
    Data,
}

/// The CACHE instruction behind one index-invalidate operation.
#[derive(Debug, Clone, Copy, PartialEq, Eq, Structural)]
pub struct MachinePrimaryCacheIndexInvalidateProvenance {
    pub instruction_pc: CpuAddress,
    pub raw_instruction_word: u32,
    pub target: MachinePrimaryCacheIndexStoreTagTarget,
    pub base_gpr: u8,
    pub base_lineage: MachineBootstrapGprSource,
    pub effective_address: u64,
    pub cpu_address: CpuAddress,
    pub physical_address: u32,
    pub line_index: u16,
    pub delay_slot_owner: Option<CpuAddress>,
}

impl MachinePrimaryCacheIndexInvalidateProvenance {
    pub fn new(
        instruction_pc: CpuAddress,
        raw_instruction_word: u32,
        target: MachinePrimaryCacheIndexStoreTagTarget,
        base_gpr: u8,
        base_lineage: MachineBootstrapGprSource,
        effective_address: u64,
        cpu_address: CpuAddress,
        physical_address: u32,
        line_index: u16,
        delay_slot_owner: Option<CpuAddress>,
    ) -> (r: Self)
        ensures
            r == (MachinePrimaryCacheIndexInvalidateProvenance {
                instruction_pc,
                raw_instruction_word,
                target,
                base_gpr,
                base_lineage,
                effective_address,
                cpu_address,
                physical_address,
                line_index,
                delay_slot_owner,
            }),
    {
        Self {
            instruction_pc,
            raw_instruction_word,
            target,
            base_gpr,
            base_lineage,
            effective_address,
            cpu_address,
            physical_address,
            line_index,
            delay_slot_owner,
        }
    }

    pub fn instruction_pc(self) -> (r: CpuAddress)
        ensures
            r == self.instruction_pc,
    {
        self.instruction_pc
    }

    pub fn raw_instruction_word(self) -> (r: u32)
        ensures
            r == self.raw_instruction_word,
    {
        self.raw_instruction_word
    }

    pub fn target(self) -> (r: MachinePrimaryCacheIndexStoreTagTarget)
        ensures
            r == self.target,
    {
        self.target
    }

    pub fn base_gpr(self) -> (r: u8)
        ensures
            r == self.base_gpr,
    {
        self.base_gpr
    }

    pub fn base_lineage(self) -> (r: MachineBootstrapGprSource)
        ensures
            r == self.base_lineage,
    {
        self.base_lineage
    }

    pub fn effective_address(self) -> (r: u64)
        ensures
            r == self.effective_address,
    {
        self.effective_address
    }

    pub fn cpu_address(self) -> (r: CpuAddress)
        ensures
            r == self.cpu_address,
    {
        self.cpu_address
    }

    pub fn physical_address(self) -> (r: u32)
        ensures
            r == self.physical_address,
    {
        self.physical_address
    }

    pub fn line_index(self) -> (r: u16)
        ensures
            r == self.line_index,
    {
        self.line_index
    }

    pub fn delay_slot_owner(self) -> (r: Option<CpuAddress>)
        ensures
            r == self.delay_slot_owner,
    {
        self.delay_slot_owner
    }
}

/// The CACHE instruction behind one hit-invalidate operation.
#[derive(Debug, Clone, Copy, PartialEq, Eq, Structural)]
pub struct MachinePrimaryCacheHitInvalidateProvenance {
    pub instruction_pc: CpuAddress,
    pub raw_instruction_word: u32,
    pub target: MachinePrimaryCacheHitInvalidateTarget,
    pub base_gpr: u8,
    pub base_lineage: MachineBootstrapGprSource,
    pub effective_address: u64,
    pub cpu_address: CpuAddress,
    pub physical_address: u32,
    pub line_index: u16,
    pub delay_slot_owner: Option<CpuAddress>,
}

impl MachinePrimaryCacheHitInvalidateProvenance {
    pub fn new(
        instruction_pc: CpuAddress,
        raw_instruction_word: u32,
        target: MachinePrimaryCacheHitInvalidateTarget,
        base_gpr: u8,
        base_lineage: MachineBootstrapGprSource,
        effective_address: u64,
        cpu_address: CpuAddress,
        physical_address: u32,
        line_index: u16,
        delay_slot_owner: Option<CpuAddress>,
    ) -> (r: Self)
        ensures
            r == (MachinePrimaryCacheHitInvalidateProvenance {
                instruction_pc,
                raw_instruction_word,
                target,
                base_gpr,
                base_lineage,
                effective_address,
                cpu_address,
                physical_address,
                line_index,
                delay_slot_owner,
            }),
    {
        Self {
            instruction_pc,
            raw_instruction_word,
            target,
            base_gpr,
            base_lineage,
            effective_address,
            cpu_address,
            physical_address,
            line_index,
            delay_slot_owner,
        }
    }

    pub fn instruction_pc(self) -> (r: CpuAddress)
        ensures
            r == self.instruction_pc,
    {
        self.instruction_pc
    }

    pub fn raw_instruction_word(self) -> (r: u32)
        ensures
            r == self.raw_instruction_word,
    {
        self.raw_instruction_word
    }

    pub fn target(self) -> (r: MachinePrimaryCacheHitInvalidateTarget)
        ensures
            r == self.target,
    {
        self.target
    }

    pub fn base_gpr(self) -> (r: u8)
        ensures
            r == self.base_gpr,
    {
        self.base_gpr
    }

    pub fn base_lineage(self) -> (r: MachineBootstrapGprSource)
        ensures
            r == self.base_lineage,
    {
        self.base_lineage
    }

    pub fn effective_address(self) -> (r: u64)
        ensures
            r == self.effective_address,
    {
        self.effective_address
    }

    pub fn cpu_address(self) -> (r: CpuAddress)
        ensures
            r == self.cpu_address,
    {
        self.cpu_address
    }

    pub fn physical_address(self) -> (r: u32)
        ensures
            r == self.physical_address,
    {
        self.physical_address
    }

    pub fn line_index(self) -> (r: u16)
        ensures
            r == self.line_index,
    {
        self.line_index
    }

    pub fn delay_slot_owner(self) -> (r: Option<CpuAddress>)
        ensures
            r == self.delay_slot_owner,
    {
        self.delay_slot_owner
    }
}

/// The CACHE instruction behind one index-store-tag operation, with the tags it stored.
#[derive(Debug, Clone, Copy, PartialEq, Eq, Structural)]
pub struct MachinePrimaryCacheOperationProvenance {
    pub instruction_pc: CpuAddress,
    pub raw_instruction_word: u32,
    pub target: MachinePrimaryCacheIndexStoreTagTarget,
    pub base_gpr: u8,
    pub base_lineage: MachineBootstrapGprSource,
    pub effective_address: u64,
    pub cpu_address: CpuAddress,
    pub line_index: u16,
    pub tag_lo: MachineCop0TagState,
    pub tag_hi: MachineCop0TagState,
    pub delay_slot_owner: Option<CpuAddress>,
}

impl MachinePrimaryCacheOperationProvenance {
    pub fn new(
        instruction_pc: CpuAddress,
        raw_instruction_word: u32,
        target: MachinePrimaryCacheIndexStoreTagTarget,
        base_gpr: u8,
        base_lineage: MachineBootstrapGprSource,
        effective_address: u64,
        cpu_address: CpuAddress,
        line_index: u16,
        tag_lo: MachineCop0TagState,
        tag_hi: MachineCop0TagState,
        delay_slot_owner: Option<CpuAddress>,
    ) -> (r: Self)
        ensures
            r == (MachinePrimaryCacheOperationProvenance {
                instruction_pc,
                raw_instruction_word,
                target,
                base_gpr,
                base_lineage,
                effective_address,
                cpu_address,
                line_index,
                tag_lo,
                tag_hi,
                delay_slot_owner,
            }),
    {
        Self {
            instruction_pc,
            raw_instruction_word,
            target,
            base_gpr,
            base_lineage,
            effective_address,
            cpu_address,
            line_index,
            tag_lo,
            tag_hi,
            delay_slot_owner,
        }
    }

    pub fn instruction_pc(self) -> (r: CpuAddress)
        ensures
            r == self.instruction_pc,
    {
        self.instruction_pc
    }

    pub fn raw_instruction_word(self) -> (r: u32)
        ensures
            r == self.raw_instruction_word,
    {
        self.raw_instruction_word
    }

    pub fn target(self) -> (r: MachinePrimaryCacheIndexStoreTagTarget)
        ensures
            r == self.target,
    {
        self.target
    }

    pub fn base_gpr(self) -> (r: u8)
        ensures
            r == self.base_gpr,
    {
        self.base_gpr
    }

    pub fn base_lineage(self) -> (r: MachineBootstrapGprSource)
        ensures
            r == self.base_lineage,
    {
        self.base_lineage
    }

    pub fn effective_address(self) -> (r: u64)
        ensures
            r == self.effective_address,
    {
        self.effective_address
    }

    pub fn cpu_address(self) -> (r: CpuAddress)
        ensures
            r == self.cpu_address,
    {
        self.cpu_address
    }

    pub fn line_index(self) -> (r: u16)
        ensures
            r == self.line_index,
    {
        self.line_index
    }

    pub fn tag_lo(self) -> (r: MachineCop0TagState)
        ensures
            r == self.tag_lo,
    {
        self.tag_lo
    }

    pub fn tag_hi(self) -> (r: MachineCop0TagState)
        ensures
            r == self.tag_hi,
    {
        self.tag_hi
    }

    pub fn delay_slot_owner(self) -> (r: Option<CpuAddress>)
        ensures
            r == self.delay_slot_owner,
    {
        self.delay_slot_owner
    }
}

/// The request that filled one instruction-cache line.
#[derive(Debug, Clone, Copy, PartialEq, Eq, Structural)]
pub struct MachinePrimaryInstructionCacheFillProvenance {
    pub requested_cpu_address: CpuAddress,
    pub physical_line_address: u32,
}

impl MachinePrimaryInstructionCacheFillProvenance {
    pub fn new(requested_cpu_address: CpuAddress, physical_line_address: u32) -> (r: Self)
        ensures
            r == (MachinePrimaryInstructionCacheFillProvenance {
                requested_cpu_address,
                physical_line_address,
            }),
    {
        Self { requested_cpu_address, physical_line_address }
    }

    pub fn requested_cpu_address(self) -> (r: CpuAddress)
        ensures
            r == self.requested_cpu_address,
    {
        self.requested_cpu_address
    }

    pub fn physical_line_address(self) -> (r: u32)
        ensures
            r == self.physical_line_address,
    {
        self.physical_line_address
    }
}

/// The request that filled one data-cache line.
#[derive(Debug, Clone, Copy, PartialEq, Eq, Structural)]
pub struct MachinePrimaryDataCacheFillProvenance {
    pub requested_cpu_address: CpuAddress,
    pub physical_line_address: u32,
}

impl MachinePrimaryDataCacheFillProvenance {
    pub fn new(requested_cpu_address: CpuAddress, physical_line_address: u32) -> (r: Self)
        ensures
            r == (MachinePrimaryDataCacheFillProvenance {
                requested_cpu_address,
                physical_line_address,
            }),
    {
        Self { requested_cpu_address, physical_line_address }
    }

    pub fn requested_cpu_address(self) -> (r: CpuAddress)
        ensures
            r == self.requested_cpu_address,
    {
        self.requested_cpu_address
    }

    pub fn physical_line_address(self) -> (r: u32)
        ensures
            r == self.physical_line_address,
    {
        self.physical_line_address
    }
}

#[derive(Debug, Clone, Copy, PartialEq, Eq, Structural)]
pub enum MachinePrimaryDataCacheStoreWidth {
    Byte,
    Halfword,
    Word,
    Doubleword,
}

/// The store instruction behind the latest write into a dirty data-cache line.
#[derive(Debug, Clone, Copy, PartialEq, Eq, Structural)]
pub struct MachinePrimaryDataCacheStoreProvenance {
    pub instruction_pc: CpuAddress,
    pub raw_instruction_word: u32,
    pub source_gpr: u8,
    pub source_lineage: MachineBootstrapGprSource,
    pub effective_address: u64,
    pub cpu_address: CpuAddress,
    pub physical_address: u32,
    pub width: MachinePrimaryDataCacheStoreWidth,
    pub delay_slot_owner: Option<CpuAddress>,
}

impl MachinePrimaryDataCacheStoreProvenance {
    pub fn new(
        instruction_pc: CpuAddress,
        raw_instruction_word: u32,
        source_gpr: u8,
        source_lineage: MachineBootstrapGprSource,
        effective_address: u64,
        cpu_address: CpuAddress,
        physical_address: u32,
        width: MachinePrimaryDataCacheStoreWidth,
        delay_slot_owner: Option<CpuAddress>,
    ) -> (r: Self)
        ensures
            r == (MachinePrimaryDataCacheStoreProvenance {
                instruction_pc,
                raw_instruction_word,
                source_gpr,
                source_lineage,
                effective_address,
                cpu_address,
                physical_address,
                width,
                delay_slot_owner,
            }),
    {
        Self {
            instruction_pc,
            raw_instruction_word,
            source_gpr,
            source_lineage,
            effective_address,
            cpu_address,
            physical_address,
            width,
            delay_slot_owner,
        }
    }

    pub fn instruction_pc(self) -> (r: CpuAddress)
        ensures
            r == self.instruction_pc,
    {
        self.instruction_pc
    }

    pub fn raw_instruction_word(self) -> (r: u32)
        ensures
            r == self.raw_instruction_word,
    {
        self.raw_instruction_word
    }

    pub fn source_gpr(self) -> (r: u8)
        ensures
            r == self.source_gpr,
    {
        self.source_gpr
    }

    pub fn source_lineage(self) -> (r: MachineBootstrapGprSource)
        ensures
            r == self.source_lineage,
    {
        self.source_lineage
    }

    pub fn effective_address(self) -> (r: u64)
        ensures
            r == self.effective_address,
    {
        self.effective_address
    }

    pub fn cpu_address(self) -> (r: CpuAddress)
        ensures
            r == self.cpu_address,
    {
        self.cpu_address
    }

    pub fn physical_address(self) -> (r: u32)
        ensures
            r == self.physical_address,
    {
        self.physical_address
    }

    pub fn width(self) -> (r: MachinePrimaryDataCacheStoreWidth)
        ensures
            r == self.width,
    {
        self.width
    }

    pub fn delay_slot_owner(self) -> (r: Option<CpuAddress>)
        ensures
            r == self.delay_slot_owner,
    {
        self.delay_slot_owner
    }
}

/// The CACHE instruction behind one data hit-writeback operation.
#[derive(Debug, Clone, Copy, PartialEq, Eq, Structural)]
pub struct MachinePrimaryDataCacheHitWritebackProvenance {
    pub instruction_pc: CpuAddress,
    pub raw_instruction_word: u32,
    pub base_gpr: u8,
    pub base_lineage: MachineBootstrapGprSource,
    pub effective_address: u64,
    pub cpu_address: CpuAddress,
    pub physical_address: u32,
    pub line_index: u16,
    pub delay_slot_owner: Option<CpuAddress>,
}

impl MachinePrimaryDataCacheHitWritebackProvenance {
    pub fn new(
        instruction_pc: CpuAddress,
        raw_instruction_word: u32,
        base_gpr: u8,
        base_lineage: MachineBootstrapGprSource,
        effective_address: u64,
        cpu_address: CpuAddress,
        physical_address: u32,
        line_index: u16,
        delay_slot_owner: Option<CpuAddress>,
    ) -> (r: Self)
        ensures
            r == (MachinePrimaryDataCacheHitWritebackProvenance {
                instruction_pc,
                raw_instruction_word,
                base_gpr,
                base_lineage,
                effective_address,
                cpu_address,
                physical_address,
                line_index,
                delay_slot_owner,
            }),
    {
        Self {
            instruction_pc,
            raw_instruction_word,
            base_gpr,
            base_lineage,
            effective_address,
            cpu_address,
            physical_address,
            line_index,
            delay_slot_owner,
        }
    }

    pub fn instruction_pc(self) -> (r: CpuAddress)
        ensures
            r == self.instruction_pc,
    {
        self.instruction_pc
    }

    pub fn raw_instruction_word(self) -> (r: u32)
        ensures
            r == self.raw_instruction_word,
    {
        self.raw_instruction_word
    }

    pub fn base_gpr(self) -> (r: u8)
        ensures
            r == self.base_gpr,
    {
        self.base_gpr
    }

    pub fn base_lineage(self) -> (r: MachineBootstrapGprSource)
        ensures
            r == self.base_lineage,
    {
        self.base_lineage
    }

    pub fn effective_address(self) -> (r: u64)
        ensures
            r == self.effective_address,
    {
        self.effective_address
    }

    pub fn cpu_address(self) -> (r: CpuAddress)
        ensures
            r == self.cpu_address,
    {
        self.cpu_address
    }

    pub fn physical_address(self) -> (r: u32)
        ensures
            r == self.physical_address,
    {
        self.physical_address
    }

    pub fn line_index(self) -> (r: u16)
        ensures
            r == self.line_index,
    {
        self.line_index
    }

    pub fn delay_slot_owner(self) -> (r: Option<CpuAddress>)
        ensures
            r == self.delay_slot_owner,
    {
        self.delay_slot_owner
    }
}

/// The represented truth of one primary instruction-cache line.
#[derive(Debug, Clone, Copy, PartialEq, Eq)]
pub enum MachinePrimaryInstructionCacheLineState {
    Unavailable,
    Invalid { provenance: MachinePrimaryCacheOperationProvenance },
    IndexInvalid { provenance: MachinePrimaryCacheIndexInvalidateProvenance },
    HitInvalid { provenance: MachinePrimaryCacheHitInvalidateProvenance },
    ValidDataUnavailable { physical_tag: u32, provenance: MachinePrimaryCacheOperationProvenance },
    Valid {
        physical_tag: u32,
        data: [u8; 32],
        provenance: MachinePrimaryInstructionCacheFillProvenance,
    },
}

impl MachinePrimaryInstructionCacheLineState {
    pub fn is_unavailable(self) -> (r: bool)
        ensures
            r == (self is Unavailable),
    {
        matches!(self, MachinePrimaryInstructionCacheLineState::Unavailable)
    }

    pub fn is_invalid(self) -> (r: bool)
        ensures
            r == (self is Invalid || self is IndexInvalid || self is HitInvalid),
    {
        match self {
            MachinePrimaryInstructionCacheLineState::Invalid { .. }
            | MachinePrimaryInstructionCacheLineState::IndexInvalid { .. }
            | MachinePrimaryInstructionCacheLineState::HitInvalid { .. } => true,
            _ => false,
        }
    }

    pub fn is_valid(self) -> (r: bool)
        ensures
            r == (self is ValidDataUnavailable || self is Valid),
    {
        match self {
            MachinePrimaryInstructionCacheLineState::ValidDataUnavailable { .. }
            | MachinePrimaryInstructionCacheLineState::Valid { .. } => true,
            _ => false,
        }
    }

    pub open spec fn spec_physical_tag(self) -> Option<u32> {
        match self {
            MachinePrimaryInstructionCacheLineState::ValidDataUnavailable { physical_tag, .. } => Some(
                physical_tag,
            ),
            MachinePrimaryInstructionCacheLineState::Valid { physical_tag, .. } => Some(
                physical_tag,
            ),
            _ => None,
        }
    }

    pub fn physical_tag(self) -> (r: Option<u32>)
        ensures
            r == self.spec_physical_tag(),
    {
        match self {
            MachinePrimaryInstructionCacheLineState::ValidDataUnavailable { physical_tag, .. } => Some(
                physical_tag,
            ),
            MachinePrimaryInstructionCacheLineState::Valid { physical_tag, .. } => Some(
                physical_tag,
            ),
            _ => None,
        }
    }

    pub fn operation_provenance(self) -> (r: Option<MachinePrimaryCacheOperationProvenance>)
        ensures
            r == (match self {
                MachinePrimaryInstructionCacheLineState::Invalid { provenance } => Some(provenance),
                MachinePrimaryInstructionCacheLineState::ValidDataUnavailable { provenance, .. } => Some(
                    provenance,
                ),
                _ => None,
            }),
    {
        match self {
            MachinePrimaryInstructionCacheLineState::Invalid { provenance } => Some(provenance),
            MachinePrimaryInstructionCacheLineState::ValidDataUnavailable { provenance, .. } => Some(
                provenance,
            ),
            _ => None,
        }
    }

    pub fn index_invalidation_provenance(self) -> (r: Option<
        MachinePrimaryCacheIndexInvalidateProvenance,
    >)
        ensures
            r == (match self {
                MachinePrimaryInstructionCacheLineState::IndexInvalid { provenance } => Some(
                    provenance,
                ),
                _ => None,
            }),
    {
        match self {
            MachinePrimaryInstructionCacheLineState::IndexInvalid { provenance } => Some(provenance),
            _ => None,
        }
    }

    pub fn hit_invalidation_provenance(self) -> (r: Option<
        MachinePrimaryCacheHitInvalidateProvenance,
    >)
        ensures
            r == (match self {
                MachinePrimaryInstructionCacheLineState::HitInvalid { provenance } => Some(
                    provenance,
                ),
                _ => None,
            }),
    {
        match self {
            MachinePrimaryInstructionCacheLineState::HitInvalid { provenance } => Some(provenance),
            _ => None,
        }
    }

    pub fn fill_provenance(self) -> (r: Option<MachinePrimaryInstructionCacheFillProvenance>)
        ensures
            r == (match self {
                MachinePrimaryInstructionCacheLineState::Valid { provenance, .. } => Some(provenance),
                _ => None,
            }),
    {
        match self {
            MachinePrimaryInstructionCacheLineState::Valid { provenance, .. } => Some(provenance),
            _ => None,
        }
    }

    pub fn data(self) -> (r: Option<[u8; 32]>)
        ensures
            r == (match self {
                MachinePrimaryInstructionCacheLineState::Valid { data, .. } => Some(data),
                _ => None,
            }),
    {
        match self {
            MachinePrimaryInstructionCacheLineState::Valid { data, .. } => Some(data),
            _ => None,
        }
    }
}

/// The represented truth of one primary data-cache line.
#[derive(Debug, Clone, Copy, PartialEq, Eq)]
pub enum MachinePrimaryDataCacheLineState {
    Unavailable,
    Invalid { provenance: MachinePrimaryCacheOperationProvenance },
    IndexInvalid { provenance: MachinePrimaryCacheIndexInvalidateProvenance },
    HitInvalid { provenance: MachinePrimaryCacheHitInvalidateProvenance },
    ValidCleanDataUnavailable {
        physical_tag: u32,
        provenance: MachinePrimaryCacheOperationProvenance,
    },
    ValidDirtyDataUnavailable {
        physical_tag: u32,
        provenance: MachinePrimaryCacheOperationProvenance,
    },
    ValidClean {
        physical_tag: u32,
        data: [u8; 16],
        provenance: MachinePrimaryDataCacheFillProvenance,
    },
    ValidDirty {
        physical_tag: u32,
        data: [u8; 16],
        fill_provenance: MachinePrimaryDataCacheFillProvenance,
        store_provenance: MachinePrimaryDataCacheStoreProvenance,
    },
}

impl MachinePrimaryDataCacheLineState {
    pub fn is_unavailable(self) -> (r: bool)
        ensures
            r == (self is Unavailable),
    {
        matches!(self, MachinePrimaryDataCacheLineState::Unavailable)
    }

    pub fn is_invalid(self) -> (r: bool)
        ensures
            r == (self is Invalid || self is IndexInvalid || self is HitInvalid),
    {
        match self {
            MachinePrimaryDataCacheLineState::Invalid { .. }
            | MachinePrimaryDataCacheLineState::IndexInvalid { .. }
            | MachinePrimaryDataCacheLineState::HitInvalid { .. } => true,
            _ => false,
        }
    }

    pub fn is_valid_clean(self) -> (r: bool)
        ensures
            r == (self is ValidCleanDataUnavailable || self is ValidClean),
    {
        match self {
            MachinePrimaryDataCacheLineState::ValidCleanDataUnavailable { .. }
            | MachinePrimaryDataCacheLineState::ValidClean { .. } => true,
            _ => false,
        }
    }

    pub fn is_valid_dirty(self) -> (r: bool)
        ensures
            r == (self is ValidDirtyDataUnavailable || self is ValidDirty),
    {
        match self {
            MachinePrimaryDataCacheLineState::ValidDirtyDataUnavailable { .. }
            | MachinePrimaryDataCacheLineState::ValidDirty { .. } => true,
            _ => false,
        }
    }

    pub open spec fn spec_physical_tag(self) -> Option<u32> {
        match self {
            MachinePrimaryDataCacheLineState::ValidCleanDataUnavailable { physical_tag, .. } => Some(
                physical_tag,
            ),
            MachinePrimaryDataCacheLineState::ValidDirtyDataUnavailable { physical_tag, .. } => Some(
                physical_tag,
            ),
            MachinePrimaryDataCacheLineState::ValidClean { physical_tag, .. } => Some(physical_tag),
            MachinePrimaryDataCacheLineState::ValidDirty { physical_tag, .. } => Some(physical_tag),
            _ => None,
        }
    }

    pub fn physical_tag(self) -> (r: Option<u32>)
        ensures
            r == self.spec_physical_tag(),
    {
        match self {
            MachinePrimaryDataCacheLineState::ValidCleanDataUnavailable { physical_tag, .. } => Some(
                physical_tag,
            ),
            MachinePrimaryDataCacheLineState::ValidDirtyDataUnavailable { physical_tag, .. } => Some(
                physical_tag,
            ),
            MachinePrimaryDataCacheLineState::ValidClean { physical_tag, .. } => Some(physical_tag),
            MachinePrimaryDataCacheLineState::ValidDirty { physical_tag, .. } => Some(physical_tag),
            _ => None,
        }
    }

    pub fn operation_provenance(self) -> (r: Option<MachinePrimaryCacheOperationProvenance>)
        ensures
            r == (match self {
                MachinePrimaryDataCacheLineState::Invalid { provenance } => Some(provenance),
                MachinePrimaryDataCacheLineState::ValidCleanDataUnavailable { provenance, .. } => Some(
                    provenance,
                ),
                MachinePrimaryDataCacheLineState::ValidDirtyDataUnavailable { provenance, .. } => Some(
                    provenance,
                ),
                _ => None,
            }),
    {
        match self {
            MachinePrimaryDataCacheLineState::Invalid { provenance } => Some(provenance),
            MachinePrimaryDataCacheLineState::ValidCleanDataUnavailable { provenance, .. } => Some(
                provenance,
            ),
            MachinePrimaryDataCacheLineState::ValidDirtyDataUnavailable { provenance, .. } => Some(
                provenance,
            ),
            _ => None,
        }
    }

    pub fn index_invalidation_provenance(self) -> (r: Option<
        MachinePrimaryCacheIndexInvalidateProvenance,
    >)
        ensures
            r == (match self {
                MachinePrimaryDataCacheLineState::IndexInvalid { provenance } => Some(provenance),
                _ => None,
            }),
    {
        match self {
            MachinePrimaryDataCacheLineState::IndexInvalid { provenance } => Some(provenance),
            _ => None,
        }
    }

    pub fn hit_invalidation_provenance(self) -> (r: Option<
        MachinePrimaryCacheHitInvalidateProvenance,
    >)
        ensures
            r == (match self {
                MachinePrimaryDataCacheLineState::HitInvalid { provenance } => Some(provenance),
                _ => None,
            }),
    {
        match self {
            MachinePrimaryDataCacheLineState::HitInvalid { provenance } => Some(provenance),
            _ => None,
        }
    }

    pub fn fill_provenance(self) -> (r: Option<MachinePrimaryDataCacheFillProvenance>)
        ensures
            r == (match self {
                MachinePrimaryDataCacheLineState::ValidClean { provenance, .. } => Some(provenance),
                MachinePrimaryDataCacheLineState::ValidDirty { fill_provenance, .. } => Some(
                    fill_provenance,
                ),
                _ => None,
            }),
    {
        match self {
            MachinePrimaryDataCacheLineState::ValidClean { provenance, .. } => Some(provenance),
            MachinePrimaryDataCacheLineState::ValidDirty { fill_provenance, .. } => Some(
                fill_provenance,
            ),
            _ => None,
        }
    }

    pub open spec fn spec_data(self) -> Option<[u8; 16]> {
        match self {
            MachinePrimaryDataCacheLineState::ValidClean { data, .. } => Some(data),
            MachinePrimaryDataCacheLineState::ValidDirty { data, .. } => Some(data),
            _ => None,
        }
    }

    pub fn data(self) -> (r: Option<[u8; 16]>)
        ensures
            r == self.spec_data(),
    {
        match self {
            MachinePrimaryDataCacheLineState::ValidClean { data, .. } => Some(data),
            MachinePrimaryDataCacheLineState::ValidDirty { data, .. } => Some(data),
            _ => None,
        }
    }

    pub fn store_provenance(self) -> (r: Option<MachinePrimaryDataCacheStoreProvenance>)
        ensures
            r == (match self {
                MachinePrimaryDataCacheLineState::ValidDirty { store_provenance, .. } => Some(
                    store_provenance,
                ),
                _ => None,
            }),
    {
        match self {
            MachinePrimaryDataCacheLineState::ValidDirty { store_provenance, .. } => Some(
                store_provenance,
            ),
            _ => None,
        }
    }
}

/// Index of the instruction-cache line that holds a physical address (direct mapped).
pub open spec fn spec_instruction_line_index(physical_address: u32) -> int {
    physical_address as int / 0x20 % 512
}

/// Index of the data-cache line that holds a physical address (direct mapped).
pub open spec fn spec_data_line_index(physical_address: u32) -> int {
    physical_address as int / 0x10 % 512
}

/// The instruction-cache tag of a physical address: the address with its low 14 bits clear.
pub open spec fn spec_instruction_tag(physical_address: u32) -> u32 {
    (physical_address as int - physical_address as int % 0x4000) as u32
}

/// The data-cache tag of a physical address: the address with its low 13 bits clear.
pub open spec fn spec_data_tag(physical_address: u32) -> u32 {
    (physical_address as int - physical_address as int % 0x2000) as u32
}

pub fn primary_instruction_cache_line_index(physical_address: u32) -> (r: usize)
    ensures
        r == spec_instruction_line_index(physical_address),
        r < 512,
{
    let x = physical_address as usize;
    proof {
        lemma_line_address_bits(x, physical_address);
    }
    (x / PRIMARY_INSTRUCTION_CACHE_LINE_SIZE_BYTES) & 511
}

pub fn primary_data_cache_line_index(physical_address: u32) -> (r: usize)
    ensures
        r == spec_data_line_index(physical_address),
        r < 512,
{
    let x = physical_address as usize;
    proof {
        lemma_line_address_bits(x, physical_address);
    }
    (x / PRIMARY_DATA_CACHE_LINE_SIZE_BYTES) & 511
}

fn primary_instruction_cache_physical_tag(physical_address: u32) -> (r: u32)
    ensures
        r == spec_instruction_tag(physical_address),
{
    let x = physical_address;
    proof {
        lemma_line_address_bits(x as usize, x);
    }
    x & 0xffff_c000
}

fn primary_data_cache_physical_tag(physical_address: u32) -> (r: u32)
    ensures
        r == spec_data_tag(physical_address),
{
    let x = physical_address;
    proof {
        lemma_line_address_bits(x as usize, x);
    }
    x & 0xffff_e000
}

/// The contents of both primary caches, line by line.
pub ghost struct PrimaryCachesState {
    pub instruction_lines: Seq<MachinePrimaryInstructionCacheLineState>,
    pub data_lines: Seq<MachinePrimaryDataCacheLineState>,
}

/// The 16 KiB instruction cache and 8 KiB data cache, both direct mapped.
#[derive(Debug, Clone, PartialEq, Eq)]
pub struct MachinePrimaryCaches {
    instruction_lines: [MachinePrimaryInstructionCacheLineState; 512],
    data_lines: [MachinePrimaryDataCacheLineState; 512],
}

impl View for MachinePrimaryCaches {
    type V = PrimaryCachesState;

    closed spec fn view(&self) -> PrimaryCachesState {
        PrimaryCachesState {
            instruction_lines: self.instruction_lines@,
            data_lines: self.data_lines@,
        }
    }
}

/// A line of the data cache that the operation could not handle with the bytes it holds.
#[derive(Debug, Clone, Copy, PartialEq, Eq)]
pub struct MachinePrimaryDataCacheAccessError {
    pub line_index: usize,
    pub state: MachinePrimaryDataCacheLineState,
}

/// A dirty data-cache line to be written back to memory.
#[derive(Debug, Clone, Copy, PartialEq, Eq)]
pub struct MachinePrimaryDataCacheWritebackPlan {
    pub line_index: usize,
    pub physical_line_address: u32,
    pub data: [u8; 16],
    pub latest_store: MachinePrimaryDataCacheStoreProvenance,
}

/// The writeback of a dirty line: its address is the line tag joined with the line offset.
pub open spec fn spec_writeback_plan(
    line_index: int,
    physical_tag: u32,
    data: [u8; 16],
    latest_store: MachinePrimaryDataCacheStoreProvenance,
) -> MachinePrimaryDataCacheWritebackPlan {
    MachinePrimaryDataCacheWritebackPlan {
        line_index: line_index as usize,
        physical_line_address: physical_tag | ((line_index * 16) as u32),
        data,
        latest_store,
    }
}

impl MachinePrimaryDataCacheWritebackPlan {
    fn new(
        line_index: usize,
        physical_tag: u32,
        data: [u8; 16],
        latest_store: MachinePrimaryDataCacheStoreProvenance,
    ) -> (r: Self)
        requires
            line_index < 512,
        ensures
            r == spec_writeback_plan(line_index as int, physical_tag, data, latest_store),
    {
        Self {
            line_index,
            physical_line_address: physical_tag | ((line_index * PRIMARY_DATA_CACHE_LINE_SIZE_BYTES)
                as u32),
            data,
            latest_store,
        }
    }

    pub fn line_index(self) -> (r: usize)
        ensures
            r == self.line_index,
    {
        self.line_index
    }

    pub fn physical_line_address(self) -> (r: u32)
        ensures
            r == self.physical_line_address,
    {
        self.physical_line_address
    }

    pub fn data(self) -> (r: [u8; 16])
        ensures
            r == self.data,
    {
        self.data
    }

    pub fn latest_store(self) -> (r: MachinePrimaryDataCacheStoreProvenance)
        ensures
            r == self.latest_store,
    {
        self.latest_store
    }
}

/// A line fill of the instruction cache.
#[derive(Debug, Clone, Copy, PartialEq, Eq)]
pub struct MachinePrimaryInstructionCacheFillPlan {
    pub line_index: usize,
    pub physical_tag: u32,
    pub data: [u8; 32],
    pub provenance: MachinePrimaryInstructionCacheFillProvenance,
}

impl MachinePrimaryInstructionCacheFillPlan {
    pub fn new(requested_cpu_address: CpuAddress, physical_line_address: u32, data: [u8; 32]) -> (r:
        Self)
        ensures
            r.line_index == spec_instruction_line_index(physical_line_address),
            r.physical_tag == spec_instruction_tag(physical_line_address),
            r.data == data,
            r.provenance == (MachinePrimaryInstructionCacheFillProvenance {
                requested_cpu_address,
                physical_line_address,
            }),
    {
        Self {
            line_index: primary_instruction_cache_line_index(physical_line_address),
            physical_tag: primary_instruction_cache_physical_tag(physical_line_address),
            data,
            provenance: MachinePrimaryInstructionCacheFillProvenance::new(
                requested_cpu_address,
                physical_line_address,
            ),
        }
    }

    pub fn line_index(self) -> (r: usize)
        ensures
            r == self.line_index,
    {
        self.line_index
    }

    pub fn requested_word(self, physical_address: u32) -> (r: u32)
        requires
            physical_address as int % 32 + 4 <= 32,
        ensures
            r == spec_be_u32(self.data@, physical_address as int % 32),
    {
        let x = physical_address as usize;
        proof {
        lemma_line_address_bits(x, physical_address);
    }
        let word_offset = x & (PRIMARY_INSTRUCTION_CACHE_LINE_SIZE_BYTES - 1);
        read_be_u32(self.data.as_slice(), word_offset)
    }
}

/// A line fill of the data cache, with the writeback of the line it replaces.
#[derive(Debug, Clone, Copy, PartialEq, Eq)]
pub struct MachinePrimaryDataCacheFillPlan {
    pub line_index: usize,
    pub physical_tag: u32,
    pub data: [u8; 16],
    pub provenance: MachinePrimaryDataCacheFillProvenance,
    pub writeback: Option<MachinePrimaryDataCacheWritebackPlan>,
}

impl MachinePrimaryDataCacheFillPlan {
    pub fn new(requested_cpu_address: CpuAddress, physical_line_address: u32, data: [u8; 16]) -> (r:
        Self)
        ensures
            r.line_index == spec_data_line_index(physical_line_address),
            r.physical_tag == spec_data_tag(physical_line_address),
            r.data == data,
            r.provenance == (MachinePrimaryDataCacheFillProvenance {
                requested_cpu_address,
                physical_line_address,
            }),
            r.writeback is None,
    {
        Self {
            line_index: primary_data_cache_line_index(physical_line_address),
            physical_tag: primary_data_cache_physical_tag(physical_line_address),
            data,
            provenance: MachinePrimaryDataCacheFillProvenance::new(
                requested_cpu_address,
                physical_line_address,
            ),
            writeback: None,
        }
    }

    pub fn with_writeback(self, writeback: Option<MachinePrimaryDataCacheWritebackPlan>) -> (r:
        Self)
        ensures
            r == (MachinePrimaryDataCacheFillPlan { writeback, ..self }),
    {
        let mut plan = self;
        plan.writeback = writeback;
        plan
    }

    pub fn writeback(self) -> (r: Option<MachinePrimaryDataCacheWritebackPlan>)
        ensures
            r == self.writeback,
    {
        self.writeback
    }

    pub fn requested_word(self, physical_address: u32) -> (r: u32)
        requires
            physical_address as int % 16 + 4 <= 16,
        ensures
            r == spec_be_u32(self.data@, physical_address as int % 16),
    {
        let offset = data_line_offset(physical_address);
        read_be_u32(self.data.as_slice(), offset)
    }

    pub fn requested_doubleword(self, physical_address: u32) -> (r: u64)
        requires
            physical_address as int % 16 + 8 <= 16,
        ensures
            r == spec_be_u64(self.data@, physical_address as int % 16),
    {
        let offset = data_line_offset(physical_address);
        read_be_u64(self.data.as_slice(), offset)
    }

    pub fn requested_byte(self, physical_address: u32) -> (r: u8)
        ensures
            r == self.data@[physical_address as int % 16],
    {
        let offset = data_line_offset(physical_address);
        self.data[offset]
    }

    pub fn requested_halfword(self, physical_address: u32) -> (r: u16)
        requires
            physical_address as int % 16 + 2 <= 16,
        ensures
            r == spec_be_u16(self.data@, physical_address as int % 16),
    {
        let offset = data_line_offset(physical_address);
        read_be_u16(self.data.as_slice(), offset)
    }
}

fn data_line_offset(physical_address: u32) -> (r: usize)
    ensures
        r == physical_address as int % 16,
        r < 16,
{
    let x = physical_address as usize;
    proof {
        lemma_line_address_bits(x, physical_address);
    }
    x & (PRIMARY_DATA_CACHE_LINE_SIZE_BYTES - 1)
}

fn instruction_line_offset(physical_address: u32) -> (r: usize)
    ensures
        r == physical_address as int % 32,
        r < 32,
{
    let x = physical_address as usize;
    proof {
        lemma_line_address_bits(x, physical_address);
    }
    x & (PRIMARY_INSTRUCTION_CACHE_LINE_SIZE_BYTES - 1)
}

/// An index invalidation of one line.
#[derive(Debug, Clone, Copy, PartialEq, Eq)]
pub struct MachinePrimaryCacheIndexInvalidatePlan {
    pub line_index: usize,
    pub provenance: MachinePrimaryCacheIndexInvalidateProvenance,
}

impl MachinePrimaryCacheIndexInvalidatePlan {
    pub fn new(provenance: MachinePrimaryCacheIndexInvalidateProvenance) -> (r: Self)
        ensures
            r == (MachinePrimaryCacheIndexInvalidatePlan {
                line_index: provenance.line_index as usize,
                provenance,
            }),
    {
        Self { line_index: provenance.line_index() as usize, provenance }
    }
}

/// An index writeback-invalidate of one data line.
#[derive(Debug, Clone, Copy, PartialEq, Eq)]
pub struct MachinePrimaryDataCacheIndexWritebackInvalidatePlan {
    pub invalidate: MachinePrimaryCacheIndexInvalidatePlan,
    pub writeback: Option<MachinePrimaryDataCacheWritebackPlan>,
}

impl MachinePrimaryDataCacheIndexWritebackInvalidatePlan {
    pub fn writeback(self) -> (r: Option<MachinePrimaryDataCacheWritebackPlan>)
        ensures
            r == self.writeback,
    {
        self.writeback
    }
}

/// A hit writeback of one data line: the line is cleaned when it was dirty.
#[derive(Debug, Clone, Copy, PartialEq, Eq)]
pub struct MachinePrimaryDataCacheHitWritebackPlan {
    pub line_index: usize,
    pub cache_hit: bool,
    pub writeback: Option<MachinePrimaryDataCacheWritebackPlan>,
    pub cleaned_line: Option<MachinePrimaryDataCacheLineState>,
    pub provenance: MachinePrimaryDataCacheHitWritebackProvenance,
}

impl MachinePrimaryDataCacheHitWritebackPlan {
    pub fn cache_hit(self) -> (r: bool)
        ensures
            r == self.cache_hit,
    {
        self.cache_hit
    }

    pub fn writeback(self) -> (r: Option<MachinePrimaryDataCacheWritebackPlan>)
        ensures
            r == self.writeback,
    {
        self.writeback
    }

    pub fn provenance(self) -> (r: MachinePrimaryDataCacheHitWritebackProvenance)
        ensures
            r == self.provenance,
    {
        self.provenance
    }
}

/// A hit invalidation of one line; it changes the line only on a hit.
#[derive(Debug, Clone, Copy, PartialEq, Eq)]
pub struct MachinePrimaryCacheHitInvalidatePlan {
    pub target: MachinePrimaryCacheHitInvalidateTarget,
    pub line_index: usize,
    pub cache_hit: bool,
    pub provenance: MachinePrimaryCacheHitInvalidateProvenance,
}

impl MachinePrimaryCacheHitInvalidatePlan {
    pub fn cache_hit(self) -> (r: bool)
        ensures
            r == self.cache_hit,
    {
        self.cache_hit
    }

    pub fn provenance(self) -> (r: MachinePrimaryCacheHitInvalidateProvenance)
        ensures
            r == self.provenance,
    {
        self.provenance
    }
}

/// A store into one data line, with the writeback of a dirty line it replaces.
#[derive(Debug, Clone, Copy, PartialEq, Eq)]
pub struct MachinePrimaryDataCacheStorePlan {
    pub line_index: usize,
    pub physical_tag: u32,
    pub data: [u8; 16],
    pub fill_provenance: MachinePrimaryDataCacheFillProvenance,
    pub store_provenance: MachinePrimaryDataCacheStoreProvenance,
    pub writeback: Option<MachinePrimaryDataCacheWritebackPlan>,
    pub cache_hit: bool,
}

impl MachinePrimaryDataCacheStorePlan {
    pub fn writeback(self) -> (r: Option<MachinePrimaryDataCacheWritebackPlan>)
        ensures
            r == self.writeback,
    {
        self.writeback
    }

    pub fn cache_hit(self) -> (r: bool)
        ensures
            r == self.cache_hit,
    {
        self.cache_hit
    }
}

/// The bytes held by a data line when it is valid with data and carries `tag`.
pub open spec fn spec_data_line_hit_bytes(line: MachinePrimaryDataCacheLineState, tag: u32) -> Option<
    Seq<u8>,
> {
    match line {
        MachinePrimaryDataCacheLineState::ValidClean { physical_tag, data, .. } => if physical_tag
            == tag {
            Some(data@)
        } else {
            None
        },
        MachinePrimaryDataCacheLineState::ValidDirty { physical_tag, data, .. } => if physical_tag
            == tag {
            Some(data@)
        } else {
            None
        },
        _ => None,
    }
}

/// The data-cache line bytes that a load of `physical_address` hits, if any.
pub open spec fn spec_lookup_data_bytes(state: PrimaryCachesState, physical_address: u32) -> Option<
    Seq<u8>,
> {
    spec_data_line_hit_bytes(
        state.data_lines[spec_data_line_index(physical_address)],
        spec_data_tag(physical_address),
    )
}

/// The instruction-cache line bytes that a fetch of `physical_address` hits, if any.
pub open spec fn spec_lookup_instruction_bytes(
    state: PrimaryCachesState,
    physical_address: u32,
) -> Option<Seq<u8>> {
    match state.instruction_lines[spec_instruction_line_index(physical_address)] {
        MachinePrimaryInstructionCacheLineState::Valid { physical_tag, data, .. } => if physical_tag
            == spec_instruction_tag(physical_address) {
            Some(data@)
        } else {
            None
        },
        _ => None,
    }
}

/// The line state written by an index-store-tag operation: TagLo state 0 invalidates, any
/// other state marks the line valid with the TagLo physical tag and no data.
pub open spec fn spec_apply_index_store_tag(
    state: PrimaryCachesState,
    provenance: MachinePrimaryCacheOperationProvenance,
) -> PrimaryCachesState {
    let index = provenance.line_index as int;
    let tag_state = spec_tag_primary_state(provenance.tag_lo.raw_word);
    let physical_tag = spec_tag_primary_physical_tag(provenance.tag_lo.raw_word);
    match provenance.target {
        MachinePrimaryCacheIndexStoreTagTarget::Instruction => PrimaryCachesState {
            instruction_lines: state.instruction_lines.update(
                index,
                if tag_state == 0 {
                    MachinePrimaryInstructionCacheLineState::Invalid { provenance }
                } else {
                    MachinePrimaryInstructionCacheLineState::ValidDataUnavailable {
                        physical_tag,
                        provenance,
                    }
                },
            ),
            ..state
        },
        MachinePrimaryCacheIndexStoreTagTarget::Data => PrimaryCachesState {
            data_lines: state.data_lines.update(
                index,
                if tag_state == 0 {
                    MachinePrimaryDataCacheLineState::Invalid { provenance }
                } else if tag_state == 2 {
                    MachinePrimaryDataCacheLineState::ValidCleanDataUnavailable {
                        physical_tag,
                        provenance,
                    }
                } else {
                    MachinePrimaryDataCacheLineState::ValidDirtyDataUnavailable {
                        physical_tag,
                        provenance,
                    }
                },
            ),
            ..state
        },
    }
}

/// What a store into `physical_address` starts from: the hit line's data, or the fill
/// data on a miss (with the writeback of a dirty victim); `None` when the line's data is
/// unavailable and the store cannot proceed.
pub open spec fn spec_store_base(
    line: MachinePrimaryDataCacheLineState,
    line_index: int,
    tag: u32,
    requested_cpu_address: CpuAddress,
    physical_address: u32,
    fill_data: [u8; 16],
) -> Option<
    (
        [u8; 16],
        MachinePrimaryDataCacheFillProvenance,
        Option<MachinePrimaryDataCacheWritebackPlan>,
        bool,
    ),
> {
    let miss_fill = MachinePrimaryDataCacheFillProvenance {
        requested_cpu_address,
        physical_line_address: (physical_address as int - physical_address as int % 16) as u32,
    };
    match line {
        MachinePrimaryDataCacheLineState::ValidClean { physical_tag, data, provenance } => {
            if physical_tag == tag {
                Some((data, provenance, None, true))
            } else {
                Some((fill_data, miss_fill, None, false))
            }
        },
        MachinePrimaryDataCacheLineState::ValidDirty {
            physical_tag,
            data,
            fill_provenance,
            store_provenance,
        } => {
            if physical_tag == tag {
                Some((data, fill_provenance, None, true))
            } else {
                Some(
                    (
                        fill_data,
                        miss_fill,
                        Some(spec_writeback_plan(line_index, physical_tag, data, store_provenance)),
                        false,
                    ),
                )
            }
        },
        MachinePrimaryDataCacheLineState::ValidCleanDataUnavailable { physical_tag, .. } => {
            if physical_tag == tag {
                None
            } else {
                Some((fill_data, miss_fill, None, false))
            }
        },
        MachinePrimaryDataCacheLineState::ValidDirtyDataUnavailable { .. } => None,
        _ => Some((fill_data, miss_fill, None, false)),
    }
}

/// The result of planning a store of `patch` (the stored value's bytes) at `physical_address`.
pub open spec fn store_plan_result(
    state: PrimaryCachesState,
    requested_cpu_address: CpuAddress,
    physical_address: u32,
    fill_data: [u8; 16],
    patch: Seq<u8>,
    provenance: MachinePrimaryDataCacheStoreProvenance,
    r: Result<MachinePrimaryDataCacheStorePlan, MachinePrimaryDataCacheAccessError>,
) -> bool {
    let index = spec_data_line_index(physical_address);
    let tag = spec_data_tag(physical_address);
    let line = state.data_lines[index];
    match spec_store_base(line, index, tag, requested_cpu_address, physical_address, fill_data) {
        None => r == Err::<MachinePrimaryDataCacheStorePlan, MachinePrimaryDataCacheAccessError>(
            MachinePrimaryDataCacheAccessError { line_index: index as usize, state: line },
        ),
        Some((base, fill_provenance, writeback, cache_hit)) => {
            &&& r is Ok
            &&& r->Ok_0.line_index == index
            &&& r->Ok_0.physical_tag == tag
            &&& r->Ok_0.data@ == spec_patch(base@, physical_address as int % 16, patch)
            &&& r->Ok_0.fill_provenance == fill_provenance
            &&& r->Ok_0.store_provenance == provenance
            &&& r->Ok_0.writeback == writeback
            &&& r->Ok_0.cache_hit == cache_hit
        },
    }
}

/// The line states left by a data store: the line becomes dirty with the plan's bytes.
pub open spec fn spec_apply_data_store(
    state: PrimaryCachesState,
    plan: MachinePrimaryDataCacheStorePlan,
) -> PrimaryCachesState {
    PrimaryCachesState {
        data_lines: state.data_lines.update(
            plan.line_index as int,
            MachinePrimaryDataCacheLineState::ValidDirty {
                physical_tag: plan.physical_tag,
                data: plan.data,
                fill_provenance: plan.fill_provenance,
                store_provenance: plan.store_provenance,
            },
        ),
        ..state
    }
}

/// The writeback needed before `physical_address` can replace its line: a dirty line of
/// another tag; an error when the line is dirty without data, or clean without data for
/// the same tag.
pub open spec fn spec_plan_data_replacement(state: PrimaryCachesState, physical_address: u32) -> Result<
    Option<MachinePrimaryDataCacheWritebackPlan>,
    MachinePrimaryDataCacheAccessError,
> {
    let index = spec_data_line_index(physical_address);
    let tag = spec_data_tag(physical_address);
    let line = state.data_lines[index];
    match line {
        MachinePrimaryDataCacheLineState::ValidDirtyDataUnavailable { .. } => Err(
            MachinePrimaryDataCacheAccessError { line_index: index as usize, state: line },
        ),
        MachinePrimaryDataCacheLineState::ValidCleanDataUnavailable { physical_tag, .. } => {
            if physical_tag == tag {
                Err(MachinePrimaryDataCacheAccessError { line_index: index as usize, state: line })
            } else {
                Ok(None)
            }
        },
        MachinePrimaryDataCacheLineState::ValidDirty {
            physical_tag,
            data,
            store_provenance,
            ..
        } => {
            if physical_tag != tag {
                Ok(Some(spec_writeback_plan(index, physical_tag, data, store_provenance)))
            } else {
                Ok(None)
            }
        },
        _ => Ok(None),
    }
}

/// A hit writeback: a dirty hit is written back and cleaned, a hit with unavailable dirty
/// data is an error, and anything else is left alone.
pub open spec fn spec_plan_data_hit_writeback(
    state: PrimaryCachesState,
    physical_address: u32,
    provenance: MachinePrimaryDataCacheHitWritebackProvenance,
) -> Result<MachinePrimaryDataCacheHitWritebackPlan, MachinePrimaryDataCacheAccessError> {
    let index = spec_data_line_index(physical_address);
    let tag = spec_data_tag(physical_address);
    let line = state.data_lines[index];
    let untouched = MachinePrimaryDataCacheHitWritebackPlan {
        line_index: index as usize,
        cache_hit: false,
        writeback: None,
        cleaned_line: None,
        provenance,
    };
    match line {
        MachinePrimaryDataCacheLineState::ValidDirtyDataUnavailable { physical_tag, .. } => {
            if physical_tag == tag {
                Err(MachinePrimaryDataCacheAccessError { line_index: index as usize, state: line })
            } else {
                Ok(untouched)
            }
        },
        MachinePrimaryDataCacheLineState::ValidDirty {
            physical_tag,
            data,
            fill_provenance,
            store_provenance,
        } => {
            if physical_tag == tag {
                Ok(
                    MachinePrimaryDataCacheHitWritebackPlan {
                        line_index: index as usize,
                        cache_hit: true,
                        writeback: Some(
                            spec_writeback_plan(index, physical_tag, data, store_provenance),
                        ),
                        cleaned_line: Some(
                            MachinePrimaryDataCacheLineState::ValidClean {
                                physical_tag,
                                data,
                                provenance: fill_provenance,
                            },
                        ),
                        provenance,
                    },
                )
            } else {
                Ok(untouched)
            }
        },
        MachinePrimaryDataCacheLineState::ValidCleanDataUnavailable { physical_tag, .. } => {
            Ok(MachinePrimaryDataCacheHitWritebackPlan { cache_hit: physical_tag == tag, ..untouched })
        },
        MachinePrimaryDataCacheLineState::ValidClean { physical_tag, .. } => {
            Ok(MachinePrimaryDataCacheHitWritebackPlan { cache_hit: physical_tag == tag, ..untouched })
        },
        _ => Ok(untouched),
    }
}

/// A hit invalidation: the line hit when it is valid (with or without data) with the tag.
pub open spec fn spec_plan_hit_invalidate(
    state: PrimaryCachesState,
    physical_address: u32,
    provenance: MachinePrimaryCacheHitInvalidateProvenance,
) -> MachinePrimaryCacheHitInvalidatePlan {
    match provenance.target {
        MachinePrimaryCacheHitInvalidateTarget::Instruction => {
            let index = spec_instruction_line_index(physical_address);
            MachinePrimaryCacheHitInvalidatePlan {
                target: provenance.target,
                line_index: index as usize,
                cache_hit: state.instruction_lines[index].spec_physical_tag() == Some(
                    spec_instruction_tag(physical_address),
                ),
                provenance,
            }
        },
        MachinePrimaryCacheHitInvalidateTarget::Data => {
            let index = spec_data_line_index(physical_address);
            MachinePrimaryCacheHitInvalidatePlan {
                target: provenance.target,
                line_index: index as usize,
                cache_hit: state.data_lines[index].spec_physical_tag() == Some(
                    spec_data_tag(physical_address),
                ),
                provenance,
            }
        },
    }
}

#[derive(Debug, Clone, Copy, PartialEq, Eq)]
enum MachinePrimaryDataCacheStoreValue {
    Byte(u8),
    Halfword(u16),
    Word(u32),
    Doubleword(u64),
}

impl MachinePrimaryDataCacheStoreValue {
    spec fn spec_bytes(self) -> Seq<u8> {
        match self {
            MachinePrimaryDataCacheStoreValue::Byte(v) => seq![v],
            MachinePrimaryDataCacheStoreValue::Halfword(v) => spec_u16_be_bytes(v),
            MachinePrimaryDataCacheStoreValue::Word(v) => spec_u32_be_bytes(v),
            MachinePrimaryDataCacheStoreValue::Doubleword(v) => spec_u64_be_bytes(v),
        }
    }
}

/// Both caches at construction: every line's contents unavailable.
pub open spec fn spec_cold_primary_caches() -> PrimaryCachesState {
    PrimaryCachesState {
        instruction_lines: Seq::new(
            512,
            |i: int| MachinePrimaryInstructionCacheLineState::Unavailable,
        ),
        data_lines: Seq::new(512, |i: int| MachinePrimaryDataCacheLineState::Unavailable),
    }
}

impl MachinePrimaryCaches {
    pub fn new() -> (r: Self)
        ensures
            r@ == spec_cold_primary_caches(),
    {
        let r = Self {
            instruction_lines: [MachinePrimaryInstructionCacheLineState::Unavailable; 512],
            data_lines: [MachinePrimaryDataCacheLineState::Unavailable; 512],
        };
        assert(r@.instruction_lines =~= Seq::new(
            512,
            |i: int| MachinePrimaryInstructionCacheLineState::Unavailable,
        ));
        assert(r@.data_lines =~= Seq::new(
            512,
            |i: int| MachinePrimaryDataCacheLineState::Unavailable,
        ));
        r
    }

    /// Both primary caches always hold 512 lines.
    pub proof fn lemma_line_counts(&self)
        ensures
            self@.instruction_lines.len() == 512,
            self@.data_lines.len() == 512,
    {
    }

    pub fn instruction_line_count(&self) -> (r: usize)
        ensures
            r == self@.instruction_lines.len(),
            r == 512,
    {
        self.instruction_lines.len()
    }

    pub fn data_line_count(&self) -> (r: usize)
        ensures
            r == self@.data_lines.len(),
            r == 512,
    {
        self.data_lines.len()
    }

    pub fn instruction_line(&self, index: usize) -> (r: Option<
        MachinePrimaryInstructionCacheLineState,
    >)
        ensures
            r == (if index < 512 {
                Some(self@.instruction_lines[index as int])
            } else {
                None
            }),
    {
        if index < 512 {
            Some(self.instruction_lines[index])
        } else {
            None
        }
    }

    pub fn data_line(&self, index: usize) -> (r: Option<MachinePrimaryDataCacheLineState>)
        ensures
            r == (if index < 512 {
                Some(self@.data_lines[index as int])
            } else {
                None
            }),
    {
        if index < 512 {
            Some(self.data_lines[index])
        } else {
            None
        }
    }

    pub fn apply_index_store_tag(&mut self, provenance: MachinePrimaryCacheOperationProvenance)
        requires
            provenance.line_index < 512,
            provenance.target == MachinePrimaryCacheIndexStoreTagTarget::Data
                ==> spec_tag_primary_state(provenance.tag_lo.raw_word) != 1,
        ensures
            final(self)@ == spec_apply_index_store_tag(old(self)@, provenance),
    {
        let line_index = provenance.line_index() as usize;
        let tag_state = provenance.tag_lo().primary_state();
        let physical_tag = provenance.tag_lo().primary_physical_tag();
        match provenance.target() {
            MachinePrimaryCacheIndexStoreTagTarget::Instruction => {
                self.instruction_lines[line_index] = if tag_state == 0 {
                    MachinePrimaryInstructionCacheLineState::Invalid { provenance }
                } else {
                    MachinePrimaryInstructionCacheLineState::ValidDataUnavailable {
                        physical_tag,
                        provenance,
                    }
                };
            },
            MachinePrimaryCacheIndexStoreTagTarget::Data => {
                self.data_lines[line_index] = if tag_state == 0 {
                    MachinePrimaryDataCacheLineState::Invalid { provenance }
                } else if tag_state == 2 {
                    MachinePrimaryDataCacheLineState::ValidCleanDataUnavailable {
                        physical_tag,
                        provenance,
                    }
                } else {
                    MachinePrimaryDataCacheLineState::ValidDirtyDataUnavailable {
                        physical_tag,
                        provenance,
                    }
                };
            },
        }
        assert(self@.instruction_lines =~= spec_apply_index_store_tag(
            old(self)@,
            provenance,
        ).instruction_lines);
        assert(self@.data_lines =~= spec_apply_index_store_tag(
            old(self)@,
            provenance,
        ).data_lines);
    }

    pub fn apply_index_invalidate(&mut self, plan: MachinePrimaryCacheIndexInvalidatePlan)
        requires
            plan.line_index < 512,
        ensures
            final(self)@ == (match plan.provenance.target {
                MachinePrimaryCacheIndexStoreTagTarget::Instruction => PrimaryCachesState {
                    instruction_lines: old(self)@.instruction_lines.update(
                        plan.line_index as int,
                        MachinePrimaryInstructionCacheLineState::IndexInvalid {
                            provenance: plan.provenance,
                        },
                    ),
                    ..old(self)@
                },
                MachinePrimaryCacheIndexStoreTagTarget::Data => PrimaryCachesState {
                    data_lines: old(self)@.data_lines.update(
                        plan.line_index as int,
                        MachinePrimaryDataCacheLineState::IndexInvalid {
                            provenance: plan.provenance,
                        },
                    ),
                    ..old(self)@
                },
            }),
    {
        match plan.provenance.target() {
            MachinePrimaryCacheIndexStoreTagTarget::Instruction => {
                self.instruction_lines[plan.line_index] =
                    MachinePrimaryInstructionCacheLineState::IndexInvalid {
                    provenance: plan.provenance,
                };
            },
            MachinePrimaryCacheIndexStoreTagTarget::Data => {
                self.data_lines[plan.line_index] = MachinePrimaryDataCacheLineState::IndexInvalid {
                    provenance: plan.provenance,
                };
            },
        }
        assert(self@.instruction_lines =~= self@.instruction_lines);
    }

    pub fn plan_data_index_writeback_invalidate(
        &self,
        provenance: MachinePrimaryCacheIndexInvalidateProvenance,
    ) -> (r: Result<
        MachinePrimaryDataCacheIndexWritebackInvalidatePlan,
        MachinePrimaryDataCacheAccessError,
    >)
        requires
            provenance.line_index < 512,
        ensures
            ({
                let index = provenance.line_index as int;
                let line = self@.data_lines[index];
                let invalidate = MachinePrimaryCacheIndexInvalidatePlan {
                    line_index: index as usize,
                    provenance,
                };
                match line {
                    MachinePrimaryDataCacheLineState::ValidDirty {
                        physical_tag,
                        data,
                        store_provenance,
                        ..
                    } => r == Ok::<
                        MachinePrimaryDataCacheIndexWritebackInvalidatePlan,
                        MachinePrimaryDataCacheAccessError,
                    >(
                        MachinePrimaryDataCacheIndexWritebackInvalidatePlan {
                            invalidate,
                            writeback: Some(
                                spec_writeback_plan(index, physical_tag, data, store_provenance),
                            ),
                        },
                    ),
                    MachinePrimaryDataCacheLineState::Unavailable
                    | MachinePrimaryDataCacheLineState::ValidDirtyDataUnavailable { .. } => r
                        == Err::<
                        MachinePrimaryDataCacheIndexWritebackInvalidatePlan,
                        MachinePrimaryDataCacheAccessError,
                    >(MachinePrimaryDataCacheAccessError { line_index: index as usize, state: line }),
                    _ => r == Ok::<
                        MachinePrimaryDataCacheIndexWritebackInvalidatePlan,
                        MachinePrimaryDataCacheAccessError,
                    >(MachinePrimaryDataCacheIndexWritebackInvalidatePlan { invalidate, writeback: None }),
                }
            }),
    {
        let line_index = provenance.line_index() as usize;
        let state = self.data_lines[line_index];
        let writeback = match state {
            MachinePrimaryDataCacheLineState::ValidDirty {
                physical_tag,
                data,
                store_provenance,
                ..
            } => Some(
                MachinePrimaryDataCacheWritebackPlan::new(
                    line_index,
                    physical_tag,
                    data,
                    store_provenance,
                ),
            ),
            MachinePrimaryDataCacheLineState::Unavailable
            | MachinePrimaryDataCacheLineState::ValidDirtyDataUnavailable { .. } => {
                return Err(MachinePrimaryDataCacheAccessError { line_index, state });
            },
            _ => None,
        };
        Ok(
            MachinePrimaryDataCacheIndexWritebackInvalidatePlan {
                invalidate: MachinePrimaryCacheIndexInvalidatePlan::new(provenance),
                writeback,
            },
        )
    }

    pub fn apply_data_index_writeback_invalidate(
        &mut self,
        plan: MachinePrimaryDataCacheIndexWritebackInvalidatePlan,
    )
        requires
            plan.invalidate.line_index < 512,
        ensures
            final(self)@ == (match plan.invalidate.provenance.target {
                MachinePrimaryCacheIndexStoreTagTarget::Instruction => PrimaryCachesState {
                    instruction_lines: old(self)@.instruction_lines.update(
                        plan.invalidate.line_index as int,
                        MachinePrimaryInstructionCacheLineState::IndexInvalid {
                            provenance: plan.invalidate.provenance,
                        },
                    ),
                    ..old(self)@
                },
                MachinePrimaryCacheIndexStoreTagTarget::Data => PrimaryCachesState {
                    data_lines: old(self)@.data_lines.update(
                        plan.invalidate.line_index as int,
                        MachinePrimaryDataCacheLineState::IndexInvalid {
                            provenance: plan.invalidate.provenance,
                        },
                    ),
                    ..old(self)@
                },
            }),
    {
        self.apply_index_invalidate(plan.invalidate);
    }

    pub fn lookup_instruction_word(&self, physical_address: u32) -> (r: Option<u32>)
        requires
            physical_address as int % 32 + 4 <= 32,
        ensures
            r == (match spec_lookup_instruction_bytes(self@, physical_address) {
                Some(data) => Some(spec_be_u32(data, physical_address as int % 32)),
                None => None,
            }),
    {
        let line_index = primary_instruction_cache_line_index(physical_address);
        let expected_tag = primary_instruction_cache_physical_tag(physical_address);
        match self.instruction_lines[line_index] {
            MachinePrimaryInstructionCacheLineState::Valid { physical_tag, data, .. } => {
                if physical_tag != expected_tag {
                    return None;
                }
                let word_offset = instruction_line_offset(physical_address);
                Some(read_be_u32(data.as_slice(), word_offset))
            },
            _ => None,
        }
    }

    pub fn apply_instruction_fill(&mut self, plan: MachinePrimaryInstructionCacheFillPlan) -> (r:
        MachinePrimaryInstructionCacheLineState)
        requires
            plan.line_index < 512,
        ensures
            r == old(self)@.instruction_lines[plan.line_index as int],
            final(self)@ == (PrimaryCachesState {
                instruction_lines: old(self)@.instruction_lines.update(
                    plan.line_index as int,
                    MachinePrimaryInstructionCacheLineState::Valid {
                        physical_tag: plan.physical_tag,
                        data: plan.data,
                        provenance: plan.provenance,
                    },
                ),
                ..old(self)@
            }),
    {
        let previous = self.instruction_lines[plan.line_index];
        self.instruction_lines[plan.line_index] = MachinePrimaryInstructionCacheLineState::Valid {
            physical_tag: plan.physical_tag,
            data: plan.data,
            provenance: plan.provenance,
        };
        previous
    }

    pub fn restore_instruction_line(
        &mut self,
        line_index: usize,
        state: MachinePrimaryInstructionCacheLineState,
    )
        requires
            line_index < 512,
        ensures
            final(self)@ == (PrimaryCachesState {
                instruction_lines: old(self)@.instruction_lines.update(line_index as int, state),
                ..old(self)@
            }),
    {
        self.instruction_lines[line_index] = state;
    }

    fn hit_data_line(&self, physical_address: u32) -> (r: Option<[u8; 16]>)
        ensures
            match r {
                Some(data) => spec_lookup_data_bytes(self@, physical_address) == Some(data@),
                None => spec_lookup_data_bytes(self@, physical_address) is None,
            },
    {
        let line_index = primary_data_cache_line_index(physical_address);
        let expected_tag = primary_data_cache_physical_tag(physical_address);
        match self.data_lines[line_index] {
            MachinePrimaryDataCacheLineState::ValidClean { physical_tag, data, .. } => {
                if physical_tag == expected_tag {
                    Some(data)
                } else {
                    None
                }
            },
            MachinePrimaryDataCacheLineState::ValidDirty { physical_tag, data, .. } => {
                if physical_tag == expected_tag {
                    Some(data)
                } else {
                    None
                }
            },
            _ => None,
        }
    }

    pub fn lookup_data_word(&self, physical_address: u32) -> (r: Option<u32>)
        requires
            physical_address as int % 16 + 4 <= 16,
        ensures
            r == (match spec_lookup_data_bytes(self@, physical_address) {
                Some(data) => Some(spec_be_u32(data, physical_address as int % 16)),
                None => None,
            }),
    {
        match self.hit_data_line(physical_address) {
            Some(data) => Some(read_be_u32(data.as_slice(), data_line_offset(physical_address))),
            None => None,
        }
    }

    pub fn lookup_data_doubleword(&self, physical_address: u32) -> (r: Option<u64>)
        requires
            physical_address as int % 16 + 8 <= 16,
        ensures
            r == (match spec_lookup_data_bytes(self@, physical_address) {
                Some(data) => Some(spec_be_u64(data, physical_address as int % 16)),
                None => None,
            }),
    {
        match self.hit_data_line(physical_address) {
            Some(data) => Some(read_be_u64(data.as_slice(), data_line_offset(physical_address))),
            None => None,
        }
    }

    pub fn lookup_data_halfword(&self, physical_address: u32) -> (r: Option<u16>)
        requires
            physical_address as int % 16 + 2 <= 16,
        ensures
            r == (match spec_lookup_data_bytes(self@, physical_address) {
                Some(data) => Some(spec_be_u16(data, physical_address as int % 16)),
                None => None,
            }),
    {
        match self.hit_data_line(physical_address) {
            Some(data) => Some(read_be_u16(data.as_slice(), data_line_offset(physical_address))),
            None => None,
        }
    }

    pub fn lookup_data_byte(&self, physical_address: u32) -> (r: Option<u8>)
        ensures
            r == (match spec_lookup_data_bytes(self@, physical_address) {
                Some(data) => Some(data[physical_address as int % 16]),
                None => None,
            }),
    {
        match self.hit_data_line(physical_address) {
            Some(data) => Some(data[data_line_offset(physical_address)]),
            None => None,
        }
    }

    pub fn plan_data_replacement(&self, physical_address: u32) -> (r: Result<
        Option<MachinePrimaryDataCacheWritebackPlan>,
        MachinePrimaryDataCacheAccessError,
    >)
        ensures
            r == spec_plan_data_replacement(self@, physical_address),
    {
        let line_index = primary_data_cache_line_index(physical_address);
        let expected_tag = primary_data_cache_physical_tag(physical_address);
        let state = self.data_lines[line_index];
        match state {
            MachinePrimaryDataCacheLineState::ValidDirtyDataUnavailable { .. } => {
                Err(MachinePrimaryDataCacheAccessError { line_index, state })
            },
            MachinePrimaryDataCacheLineState::ValidCleanDataUnavailable { physical_tag, .. } => {
                if physical_tag == expected_tag {
                    Err(MachinePrimaryDataCacheAccessError { line_index, state })
                } else {
                    Ok(None)
                }
            },
            MachinePrimaryDataCacheLineState::ValidDirty {
                physical_tag,
                data,
                store_provenance,
                ..
            } => {
                if physical_tag != expected_tag {
                    Ok(
                        Some(
                            MachinePrimaryDataCacheWritebackPlan::new(
                                line_index,
                                physical_tag,
                                data,
                                store_provenance,
                            ),
                        ),
                    )
                } else {
                    Ok(None)
                }
            },
            _ => Ok(None),
        }
    }

    pub fn plan_data_store_word(
        &self,
        requested_cpu_address: CpuAddress,
        physical_address: u32,
        fill_data: [u8; 16],
        stored_word: u32,
        provenance: MachinePrimaryDataCacheStoreProvenance,
    ) -> (r: Result<MachinePrimaryDataCacheStorePlan, MachinePrimaryDataCacheAccessError>)
        requires
            physical_address as int % 16 + 4 <= 16,
        ensures
            store_plan_result(
                self@,
                requested_cpu_address,
                physical_address,
                fill_data,
                spec_u32_be_bytes(stored_word),
                provenance,
                r,
            ),
    {
        self.plan_data_store(
            requested_cpu_address,
            physical_address,
            fill_data,
            MachinePrimaryDataCacheStoreValue::Word(stored_word),
            provenance,
        )
    }

    pub fn plan_data_store_byte(
        &self,
        requested_cpu_address: CpuAddress,
        physical_address: u32,
        fill_data: [u8; 16],
        stored_byte: u8,
        provenance: MachinePrimaryDataCacheStoreProvenance,
    ) -> (r: Result<MachinePrimaryDataCacheStorePlan, MachinePrimaryDataCacheAccessError>)
        ensures
            store_plan_result(
                self@,
                requested_cpu_address,
                physical_address,
                fill_data,
                seq![stored_byte],
                provenance,
                r,
            ),
    {
        self.plan_data_store(
            requested_cpu_address,
            physical_address,
            fill_data,
            MachinePrimaryDataCacheStoreValue::Byte(stored_byte),
            provenance,
        )
    }

    pub fn plan_data_store_halfword(
        &self,
        requested_cpu_address: CpuAddress,
        physical_address: u32,
        fill_data: [u8; 16],
        stored_halfword: u16,
        provenance: MachinePrimaryDataCacheStoreProvenance,
    ) -> (r: Result<MachinePrimaryDataCacheStorePlan, MachinePrimaryDataCacheAccessError>)
        requires
            physical_address as int % 16 + 2 <= 16,
        ensures
            store_plan_result(
                self@,
                requested_cpu_address,
                physical_address,
                fill_data,
                spec_u16_be_bytes(stored_halfword),
                provenance,
                r,
            ),
    {
        self.plan_data_store(
            requested_cpu_address,
            physical_address,
            fill_data,
            MachinePrimaryDataCacheStoreValue::Halfword(stored_halfword),
            provenance,
        )
    }

    pub fn plan_data_store_doubleword(
        &self,
        requested_cpu_address: CpuAddress,
        physical_address: u32,
        fill_data: [u8; 16],
        stored_doubleword: u64,
        provenance: MachinePrimaryDataCacheStoreProvenance,
    ) -> (r: Result<MachinePrimaryDataCacheStorePlan, MachinePrimaryDataCacheAccessError>)
        requires
            physical_address as int % 16 + 8 <= 16,
        ensures
            store_plan_result(
                self@,
                requested_cpu_address,
                physical_address,
                fill_data,
                spec_u64_be_bytes(stored_doubleword),
                provenance,
                r,
            ),
    {
        self.plan_data_store(
            requested_cpu_address,
            physical_address,
            fill_data,
            MachinePrimaryDataCacheStoreValue::Doubleword(stored_doubleword),
            provenance,
        )
    }

    fn plan_data_store(
        &self,
        requested_cpu_address: CpuAddress,
        physical_address: u32,
        fill_data: [u8; 16],
        value: MachinePrimaryDataCacheStoreValue,
        provenance: MachinePrimaryDataCacheStoreProvenance,
    ) -> (r: Result<MachinePrimaryDataCacheStorePlan, MachinePrimaryDataCacheAccessError>)
        requires
            physical_address as int % 16 + value.spec_bytes().len() <= 16,
        ensures
            store_plan_result(
                self@,
                requested_cpu_address,
                physical_address,
                fill_data,
                value.spec_bytes(),
                provenance,
                r,
            ),
    {
        let line_index = primary_data_cache_line_index(physical_address);
        let physical_tag = primary_data_cache_physical_tag(physical_address);
        let state = self.data_lines[line_index];
        let line_address = physical_address - physical_address % (PRIMARY_DATA_CACHE_LINE_SIZE_BYTES as u32);
        let miss_fill = MachinePrimaryDataCacheFillProvenance::new(
            requested_cpu_address,
            line_address,
        );
        let (mut data, fill_provenance, writeback, cache_hit) = match state {
            MachinePrimaryDataCacheLineState::ValidClean {
                physical_tag: current_tag,
                data,
                provenance: current_provenance,
            } => {
                if current_tag == physical_tag {
                    (data, current_provenance, None, true)
                } else {
                    (fill_data, miss_fill, None, false)
                }
            },
            MachinePrimaryDataCacheLineState::ValidDirty {
                physical_tag: current_tag,
                data,
                fill_provenance,
                store_provenance,
            } => {
                if current_tag == physical_tag {
                    (data, fill_provenance, None, true)
                } else {
                    (
                        fill_data,
                        miss_fill,
                        Some(
                            MachinePrimaryDataCacheWritebackPlan::new(
                                line_index,
                                current_tag,
                                data,
                                store_provenance,
                            ),
                        ),
                        false,
                    )
                }
            },
            MachinePrimaryDataCacheLineState::ValidCleanDataUnavailable {
                physical_tag: current_tag,
                ..
            } => {
                if current_tag == physical_tag {
                    return Err(MachinePrimaryDataCacheAccessError { line_index, state });
                }
                (fill_data, miss_fill, None, false)
            },
            MachinePrimaryDataCacheLineState::ValidDirtyDataUnavailable { .. } => {
                return Err(MachinePrimaryDataCacheAccessError { line_index, state });
            },
            _ => (fill_data, miss_fill, None, false),
        };
        let ghost base = data;
        let byte_offset = data_line_offset(physical_address);
        match value {
            MachinePrimaryDataCacheStoreValue::Byte(v) => {
                data[byte_offset] = v;
                assert(data@ =~= spec_patch(base@, byte_offset as int, seq![v]));
            },
            MachinePrimaryDataCacheStoreValue::Halfword(v) => {
                patch_be_u16(&mut data, byte_offset, v);
            },
            MachinePrimaryDataCacheStoreValue::Word(v) => {
                patch_be_u32(&mut data, byte_offset, v);
            },
            MachinePrimaryDataCacheStoreValue::Doubleword(v) => {
                patch_be_u64(&mut data, byte_offset, v);
            },
        }
        Ok(
            MachinePrimaryDataCacheStorePlan {
                line_index,
                physical_tag,
                data,
                fill_provenance,
                store_provenance: provenance,
                writeback,
                cache_hit,
            },
        )
    }

    pub fn apply_data_fill(&mut self, plan: MachinePrimaryDataCacheFillPlan)
        requires
            plan.line_index < 512,
        ensures
            final(self)@ == (PrimaryCachesState {
                data_lines: old(self)@.data_lines.update(
                    plan.line_index as int,
                    MachinePrimaryDataCacheLineState::ValidClean {
                        physical_tag: plan.physical_tag,
                        data: plan.data,
                        provenance: plan.provenance,
                    },
                ),
                ..old(self)@
            }),
    {
        self.data_lines[plan.line_index] = MachinePrimaryDataCacheLineState::ValidClean {
            physical_tag: plan.physical_tag,
            data: plan.data,
            provenance: plan.provenance,
        };
    }

    pub fn apply_data_store(&mut self, plan: MachinePrimaryDataCacheStorePlan)
        requires
            plan.line_index < 512,
        ensures
            final(self)@ == spec_apply_data_store(old(self)@, plan),
    {
        self.data_lines[plan.line_index] = MachinePrimaryDataCacheLineState::ValidDirty {
            physical_tag: plan.physical_tag,
            data: plan.data,
            fill_provenance: plan.fill_provenance,
            store_provenance: plan.store_provenance,
        };
    }

    pub fn plan_data_hit_writeback(
        &self,
        physical_address: u32,
        provenance: MachinePrimaryDataCacheHitWritebackProvenance,
    ) -> (r: Result<MachinePrimaryDataCacheHitWritebackPlan, MachinePrimaryDataCacheAccessError>)
        ensures
            r == spec_plan_data_hit_writeback(self@, physical_address, provenance),
    {
        let line_index = primary_data_cache_line_index(physical_address);
        let expected_tag = primary_data_cache_physical_tag(physical_address);
        let state = self.data_lines[line_index];
        let (cache_hit, writeback, cleaned_line) = match state {
            MachinePrimaryDataCacheLineState::ValidDirtyDataUnavailable { physical_tag, .. } => {
                if physical_tag == expected_tag {
                    return Err(MachinePrimaryDataCacheAccessError { line_index, state });
                }
                (false, None, None)
            },
            MachinePrimaryDataCacheLineState::ValidDirty {
                physical_tag,
                data,
                fill_provenance,
                store_provenance,
            } => {
                if physical_tag == expected_tag {
                    (
                        true,
                        Some(
                            MachinePrimaryDataCacheWritebackPlan::new(
                                line_index,
                                physical_tag,
                                data,
                                store_provenance,
                            ),
                        ),
                        Some(
                            MachinePrimaryDataCacheLineState::ValidClean {
                                physical_tag,
                                data,
                                provenance: fill_provenance,
                            },
                        ),
                    )
                } else {
                    (false, None, None)
                }
            },
            MachinePrimaryDataCacheLineState::ValidCleanDataUnavailable { physical_tag, .. } => (
                physical_tag == expected_tag,
                None,
                None,
            ),
            MachinePrimaryDataCacheLineState::ValidClean { physical_tag, .. } => (
                physical_tag == expected_tag,
                None,
                None,
            ),
            _ => (false, None, None),
        };
        Ok(
            MachinePrimaryDataCacheHitWritebackPlan {
                line_index,
                cache_hit,
                writeback,
                cleaned_line,
                provenance,
            },
        )
    }

    pub fn apply_data_hit_writeback(&mut self, plan: MachinePrimaryDataCacheHitWritebackPlan)
        requires
            plan.line_index < 512,
        ensures
            final(self)@ == (match plan.cleaned_line {
                Some(line) => PrimaryCachesState {
                    data_lines: old(self)@.data_lines.update(plan.line_index as int, line),
                    ..old(self)@
                },
                None => old(self)@,
            }),
    {
        if let Some(cleaned_line) = plan.cleaned_line {
            self.data_lines[plan.line_index] = cleaned_line;
        }
    }

    pub fn plan_hit_invalidate(
        &self,
        physical_address: u32,
        provenance: MachinePrimaryCacheHitInvalidateProvenance,
    ) -> (r: MachinePrimaryCacheHitInvalidatePlan)
        ensures
            r == spec_plan_hit_invalidate(self@, physical_address, provenance),
    {
        let target = provenance.target();
        let (line_index, cache_hit) = match target {
            MachinePrimaryCacheHitInvalidateTarget::Instruction => {
                let line_index = primary_instruction_cache_line_index(physical_address);
                let expected_tag = primary_instruction_cache_physical_tag(physical_address);
                let cache_hit = match self.instruction_lines[line_index].physical_tag() {
                    Some(tag) => tag == expected_tag,
                    None => false,
                };
                (line_index, cache_hit)
            },
            MachinePrimaryCacheHitInvalidateTarget::Data => {
                let line_index = primary_data_cache_line_index(physical_address);
                let expected_tag = primary_data_cache_physical_tag(physical_address);
                let cache_hit = match self.data_lines[line_index].physical_tag() {
                    Some(tag) => tag == expected_tag,
                    None => false,
                };
                (line_index, cache_hit)
            },
        };
        MachinePrimaryCacheHitInvalidatePlan { target, line_index, cache_hit, provenance }
    }

    pub fn apply_hit_invalidate(&mut self, plan: MachinePrimaryCacheHitInvalidatePlan)
        requires
            plan.line_index < 512,
        ensures
            final(self)@ == (if !plan.cache_hit {
                old(self)@
            } else {
                match plan.target {
                    MachinePrimaryCacheHitInvalidateTarget::Instruction => PrimaryCachesState {
                        instruction_lines: old(self)@.instruction_lines.update(
                            plan.line_index as int,
                            MachinePrimaryInstructionCacheLineState::HitInvalid {
                                provenance: plan.provenance,
                            },
                        ),
                        ..old(self)@
                    },
                    MachinePrimaryCacheHitInvalidateTarget::Data => PrimaryCachesState {
                        data_lines: old(self)@.data_lines.update(
                            plan.line_index as int,
                            MachinePrimaryDataCacheLineState::HitInvalid {
                                provenance: plan.provenance,
                            },
                        ),
                        ..old(self)@
                    },
                }
            }),
    {
        if !plan.cache_hit {
            return;
        }
        match plan.target {
            MachinePrimaryCacheHitInvalidateTarget::Instruction => {
                self.instruction_lines[plan.line_index] =
                    MachinePrimaryInstructionCacheLineState::HitInvalid {
                    provenance: plan.provenance,
                };
            },
            MachinePrimaryCacheHitInvalidateTarget::Data => {
                self.data_lines[plan.line_index] = MachinePrimaryDataCacheLineState::HitInvalid {
                    provenance: plan.provenance,
                };
            },
        }
    }
}

impl Cpu {
    pub fn primary_caches(&self) -> (r: &MachinePrimaryCaches)
        ensures
            r@ == self@.caches,
    {
        &self.primary_caches
    }
    pub fn apply_primary_cache_index_store_tag(&mut self, provenance: MachinePrimaryCacheOperationProvenance)
        requires
            provenance.line_index < 512,
            provenance.target == MachinePrimaryCacheIndexStoreTagTarget::Data
                ==> spec_tag_primary_state(provenance.tag_lo.raw_word) != 1,
        ensures
            final(self)@ == (CpuState { caches: final(self)@.caches, ..old(self)@ }),
            final(self)@.caches == spec_apply_index_store_tag(old(self)@.caches, provenance),
    {
        self.primary_caches.apply_index_store_tag(provenance)
    }

    pub fn lookup_primary_instruction_cache_word(&self, physical_address: u32) -> (r: Option<u32>)
        requires
            physical_address as int % 32 + 4 <= 32,
        ensures
            r == (match spec_lookup_instruction_bytes(self@.caches, physical_address) {
                Some(data) => Some(spec_be_u32(data, physical_address as int % 32)),
                None => None,
            }),
    {
        self.primary_caches.lookup_instruction_word(physical_address)
    }

    pub fn apply_primary_instruction_cache_fill(&mut self, plan: MachinePrimaryInstructionCacheFillPlan) -> (r:
        MachinePrimaryInstructionCacheLineState)
        requires
            plan.line_index < 512,
        ensures
            final(self)@ == (CpuState { caches: final(self)@.caches, ..old(self)@ }),
            r == old(self)@.caches.instruction_lines[plan.line_index as int],
            final(self)@.caches == (PrimaryCachesState {
                instruction_lines: old(self)@.caches.instruction_lines.update(
                    plan.line_index as int,
                    MachinePrimaryInstructionCacheLineState::Valid {
                        physical_tag: plan.physical_tag,
                        data: plan.data,
                        provenance: plan.provenance,
                    },
                ),
                ..old(self)@.caches
            }),
    {
        self.primary_caches.apply_instruction_fill(plan)
    }

    pub fn restore_primary_instruction_cache_line(
        &mut self,
        line_index: usize,
        state: MachinePrimaryInstructionCacheLineState,
    )
        requires
            line_index < 512,
        ensures
            final(self)@ == (CpuState { caches: final(self)@.caches, ..old(self)@ }),
            final(self)@.caches == (PrimaryCachesState {
                instruction_lines: old(self)@.caches.instruction_lines.update(line_index as int, state),
                ..old(self)@.caches
            }),
    {
        self.primary_caches.restore_instruction_line(line_index, state)
    }

    pub fn lookup_primary_data_cache_word(&self, physical_address: u32) -> (r: Option<u32>)
        requires
            physical_address as int % 16 + 4 <= 16,
        ensures
            r == (match spec_lookup_data_bytes(self@.caches, physical_address) {
                Some(data) => Some(spec_be_u32(data, physical_address as int % 16)),
                None => None,
            }),
    {
        self.primary_caches.lookup_data_word(physical_address)
    }

    pub fn lookup_primary_data_cache_doubleword(&self, physical_address: u32) -> (r: Option<u64>)
        requires
            physical_address as int % 16 + 8 <= 16,
        ensures
            r == (match spec_lookup_data_bytes(self@.caches, physical_address) {
                Some(data) => Some(spec_be_u64(data, physical_address as int % 16)),
                None => None,
            }),
    {
        self.primary_caches.lookup_data_doubleword(physical_address)
    }

    pub fn lookup_primary_data_cache_halfword(&self, physical_address: u32) -> (r: Option<u16>)
        requires
            physical_address as int % 16 + 2 <= 16,
        ensures
            r == (match spec_lookup_data_bytes(self@.caches, physical_address) {
                Some(data) => Some(spec_be_u16(data, physical_address as int % 16)),
                None => None,
            }),
    {
        self.primary_caches.lookup_data_halfword(physical_address)
    }

    pub fn lookup_primary_data_cache_byte(&self, physical_address: u32) -> (r: Option<u8>)
        ensures
            r == (match spec_lookup_data_bytes(self@.caches, physical_address) {
                Some(data) => Some(data[physical_address as int % 16]),
                None => None,
            }),
    {
        self.primary_caches.lookup_data_byte(physical_address)
    }

    pub fn plan_primary_data_cache_replacement(&self, physical_address: u32) -> (r: Result<
        Option<MachinePrimaryDataCacheWritebackPlan>,
        MachinePrimaryDataCacheAccessError,
    >)
        ensures
            r == spec_plan_data_replacement(self@.caches, physical_address),
    {
        self.primary_caches.plan_data_replacement(physical_address)
    }

    pub fn plan_primary_data_cache_store_word(
        &self,
        requested_cpu_address: CpuAddress,
        physical_address: u32,
        fill_data: [u8; 16],
        stored_word: u32,
        provenance: MachinePrimaryDataCacheStoreProvenance,
    ) -> (r: Result<MachinePrimaryDataCacheStorePlan, MachinePrimaryDataCacheAccessError>)
        requires
            physical_address as int % 16 + 4 <= 16,
        ensures
            store_plan_result(
                self@.caches,
                requested_cpu_address,
                physical_address,
                fill_data,
                spec_u32_be_bytes(stored_word),
                provenance,
                r,
            ),
    {
        self.primary_caches.plan_data_store_word(requested_cpu_address, physical_address, fill_data, stored_word, provenance)
    }

    pub fn plan_primary_data_cache_store_byte(
        &self,
        requested_cpu_address: CpuAddress,
        physical_address: u32,
        fill_data: [u8; 16],
        stored_byte: u8,
        provenance: MachinePrimaryDataCacheStoreProvenance,
    ) -> (r: Result<MachinePrimaryDataCacheStorePlan, MachinePrimaryDataCacheAccessError>)
        ensures
            store_plan_result(
                self@.caches,
                requested_cpu_address,
                physical_address,
                fill_data,
                seq![stored_byte],
                provenance,
                r,
            ),
    {
        self.primary_caches.plan_data_store_byte(requested_cpu_address, physical_address, fill_data, stored_byte, provenance)
    }

    pub fn plan_primary_data_cache_store_halfword(
        &self,
        requested_cpu_address: CpuAddress,
        physical_address: u32,
        fill_data: [u8; 16],
        stored_halfword: u16,
        provenance: MachinePrimaryDataCacheStoreProvenance,
    ) -> (r: Result<MachinePrimaryDataCacheStorePlan, MachinePrimaryDataCacheAccessError>)
        requires
            physical_address as int % 16 + 2 <= 16,
        ensures
            store_plan_result(
                self@.caches,
                requested_cpu_address,
                physical_address,
                fill_data,
                spec_u16_be_bytes(stored_halfword),
                provenance,
                r,
            ),
    {
        self.primary_caches.plan_data_store_halfword(requested_cpu_address, physical_address, fill_data, stored_halfword, provenance)
    }

    pub fn plan_primary_data_cache_store_doubleword(
        &self,
        requested_cpu_address: CpuAddress,
        physical_address: u32,
        fill_data: [u8; 16],
        stored_doubleword: u64,
        provenance: MachinePrimaryDataCacheStoreProvenance,
    ) -> (r: Result<MachinePrimaryDataCacheStorePlan, MachinePrimaryDataCacheAccessError>)
        requires
            physical_address as int % 16 + 8 <= 16,
        ensures
            store_plan_result(
                self@.caches,
                requested_cpu_address,
                physical_address,
                fill_data,
                spec_u64_be_bytes(stored_doubleword),
                provenance,
                r,
            ),
    {
        self.primary_caches.plan_data_store_doubleword(requested_cpu_address, physical_address, fill_data, stored_doubleword, provenance)
    }

    pub fn apply_primary_data_cache_fill(&mut self, plan: MachinePrimaryDataCacheFillPlan)
        requires
            plan.line_index < 512,
        ensures
            final(self)@ == (CpuState { caches: final(self)@.caches, ..old(self)@ }),
            final(self)@.caches == (PrimaryCachesState {
                data_lines: old(self)@.caches.data_lines.update(
                    plan.line_index as int,
                    MachinePrimaryDataCacheLineState::ValidClean {
                        physical_tag: plan.physical_tag,
                        data: plan.data,
                        provenance: plan.provenance,
                    },
                ),
                ..old(self)@.caches
            }),
    {
        self.primary_caches.apply_data_fill(plan)
    }

    pub fn apply_primary_data_cache_store(&mut self, plan: MachinePrimaryDataCacheStorePlan)
        requires
            plan.line_index < 512,
        ensures
            final(self)@ == (CpuState { caches: final(self)@.caches, ..old(self)@ }),
            final(self)@.caches == spec_apply_data_store(old(self)@.caches, plan),
    {
        self.primary_caches.apply_data_store(plan)
    }

    pub fn plan_primary_data_cache_hit_writeback(
        &self,
        physical_address: u32,
        provenance: MachinePrimaryDataCacheHitWritebackProvenance,
    ) -> (r: Result<MachinePrimaryDataCacheHitWritebackPlan, MachinePrimaryDataCacheAccessError>)
        ensures
            r == spec_plan_data_hit_writeback(self@.caches, physical_address, provenance),
    {
        self.primary_caches.plan_data_hit_writeback(physical_address, provenance)
    }

    pub fn apply_primary_data_cache_hit_writeback(&mut self, plan: MachinePrimaryDataCacheHitWritebackPlan)
        requires
            plan.line_index < 512,
        ensures
            final(self)@ == (CpuState { caches: final(self)@.caches, ..old(self)@ }),
            final(self)@.caches == (match plan.cleaned_line {
                Some(line) => PrimaryCachesState {
                    data_lines: old(self)@.caches.data_lines.update(plan.line_index as int, line),
                    ..old(self)@.caches
                },
                None => old(self)@.caches,
            }),
    {
        self.primary_caches.apply_data_hit_writeback(plan)
    }

    pub fn plan_primary_cache_hit_invalidate(
        &self,
        physical_address: u32,
        provenance: MachinePrimaryCacheHitInvalidateProvenance,
    ) -> (r: MachinePrimaryCacheHitInvalidatePlan)
        ensures
            r == spec_plan_hit_invalidate(self@.caches, physical_address, provenance),
    {
        self.primary_caches.plan_hit_invalidate(physical_address, provenance)
    }

    pub fn apply_primary_cache_hit_invalidate(&mut self, plan: MachinePrimaryCacheHitInvalidatePlan)
        requires
            plan.line_index < 512,
        ensures
            final(self)@ == (CpuState { caches: final(self)@.caches, ..old(self)@ }),
            final(self)@.caches == (if !plan.cache_hit {
                old(self)@.caches
            } else {
                match plan.target {
                    MachinePrimaryCacheHitInvalidateTarget::Instruction => PrimaryCachesState {
                        instruction_lines: old(self)@.caches.instruction_lines.update(
                            plan.line_index as int,
                            MachinePrimaryInstructionCacheLineState::HitInvalid {
                                provenance: plan.provenance,
                            },
                        ),
                        ..old(self)@.caches
                    },
                    MachinePrimaryCacheHitInvalidateTarget::Data => PrimaryCachesState {
                        data_lines: old(self)@.caches.data_lines.update(
                            plan.line_index as int,
                            MachinePrimaryDataCacheLineState::HitInvalid {
                                provenance: plan.provenance,
                            },
                        ),
                        ..old(self)@.caches
                    },
                }
            }),
    {
        self.primary_caches.apply_hit_invalidate(plan)
    }

    pub fn apply_primary_cache_index_invalidate(&mut self, plan: MachinePrimaryCacheIndexInvalidatePlan)
        requires
            plan.line_index < 512,
        ensures
            final(self)@ == (CpuState { caches: final(self)@.caches, ..old(self)@ }),
            final(self)@.caches == (match plan.provenance.target {
                MachinePrimaryCacheIndexStoreTagTarget::Instruction => PrimaryCachesState {
                    instruction_lines: old(self)@.caches.instruction_lines.update(
                        plan.line_index as int,
                        MachinePrimaryInstructionCacheLineState::IndexInvalid {
                            provenance: plan.provenance,
                        },
                    ),
                    ..old(self)@.caches
                },
                MachinePrimaryCacheIndexStoreTagTarget::Data => PrimaryCachesState {
                    data_lines: old(self)@.caches.data_lines.update(
                        plan.line_index as int,
                        MachinePrimaryDataCacheLineState::IndexInvalid {
                            provenance: plan.provenance,
                        },
                    ),
                    ..old(self)@.caches
                },
            }),
    {
        self.primary_caches.apply_index_invalidate(plan)
    }

    pub fn plan_primary_data_cache_index_writeback_invalidate(
        &self,
        provenance: MachinePrimaryCacheIndexInvalidateProvenance,
    ) -> (r: Result<
        MachinePrimaryDataCacheIndexWritebackInvalidatePlan,
        MachinePrimaryDataCacheAccessError,
    >)
        requires
            provenance.line_index < 512,
        ensures
            ({
                let index = provenance.line_index as int;
                let line = self@.caches.data_lines[index];
                let invalidate = MachinePrimaryCacheIndexInvalidatePlan {
                    line_index: index as usize,
                    provenance,
                };
                match line {
                    MachinePrimaryDataCacheLineState::ValidDirty {
                        physical_tag,
                        data,
                        store_provenance,
                        ..
                    } => r == Ok::<
                        MachinePrimaryDataCacheIndexWritebackInvalidatePlan,
                        MachinePrimaryDataCacheAccessError,
                    >(
                        MachinePrimaryDataCacheIndexWritebackInvalidatePlan {
                            invalidate,
                            writeback: Some(
                                spec_writeback_plan(index, physical_tag, data, store_provenance),
                            ),
                        },
                    ),
                    MachinePrimaryDataCacheLineState::Unavailable
                    | MachinePrimaryDataCacheLineState::ValidDirtyDataUnavailable { .. } => r
                        == Err::<
                        MachinePrimaryDataCacheIndexWritebackInvalidatePlan,
                        MachinePrimaryDataCacheAccessError,
                    >(MachinePrimaryDataCacheAccessError { line_index: index as usize, state: line }),
                    _ => r == Ok::<
                        MachinePrimaryDataCacheIndexWritebackInvalidatePlan,
                        MachinePrimaryDataCacheAccessError,
                    >(MachinePrimaryDataCacheIndexWritebackInvalidatePlan { invalidate, writeback: None }),
                }
            }),
    {
        self.primary_caches.plan_data_index_writeback_invalidate(provenance)
    }

    pub fn apply_primary_data_cache_index_writeback_invalidate(
        &mut self,
        plan: MachinePrimaryDataCacheIndexWritebackInvalidatePlan,
    )
        requires
            plan.invalidate.line_index < 512,
        ensures
            final(self)@ == (CpuState { caches: final(self)@.caches, ..old(self)@ }),
            final(self)@.caches == (match plan.invalidate.provenance.target {
                MachinePrimaryCacheIndexStoreTagTarget::Instruction => PrimaryCachesState {
                    instruction_lines: old(self)@.caches.instruction_lines.update(
                        plan.invalidate.line_index as int,
                        MachinePrimaryInstructionCacheLineState::IndexInvalid {
                            provenance: plan.invalidate.provenance,
                        },
                    ),
                    ..old(self)@.caches
                },
                MachinePrimaryCacheIndexStoreTagTarget::Data => PrimaryCachesState {
                    data_lines: old(self)@.caches.data_lines.update(
                        plan.invalidate.line_index as int,
                        MachinePrimaryDataCacheLineState::IndexInvalid {
                            provenance: plan.invalidate.provenance,
                        },
                    ),
                    ..old(self)@.caches
                },
            }),
    {
        self.primary_caches.apply_data_index_writeback_invalidate(plan)
    }
}

/// A planned data store, once applied, leaves its line a hit for the stored address whose
/// bytes are the line it started from with the stored bytes written at the address's offset.
pub proof fn lemma_data_store_then_lookup(
    state: PrimaryCachesState,
    requested_cpu_address: CpuAddress,
    physical_address: u32,
    fill_data: [u8; 16],
    stored: Seq<u8>,
    provenance: MachinePrimaryDataCacheStoreProvenance,
    plan: MachinePrimaryDataCacheStorePlan,
)
    requires
        state.data_lines.len() == 512,
        store_plan_result(
            state,
            requested_cpu_address,
            physical_address,
            fill_data,
            stored,
            provenance,
            Ok(plan),
        ),
    ensures
        spec_lookup_data_bytes(spec_apply_data_store(state, plan), physical_address) == Some(
            plan.data@,
        ),
{
    let index = spec_data_line_index(physical_address);
    assert(0 <= index < 512);
}

/// Read after write: a word load of the address of an applied word store hits and returns
/// the stored word.
pub proof fn lemma_data_store_word_then_load_word(
    state: PrimaryCachesState,
    requested_cpu_address: CpuAddress,
    physical_address: u32,
    fill_data: [u8; 16],
    stored_word: u32,
    provenance: MachinePrimaryDataCacheStoreProvenance,
    plan: MachinePrimaryDataCacheStorePlan,
)
    requires
        state.data_lines.len() == 512,
        physical_address as int % 16 + 4 <= 16,
        store_plan_result(
            state,
            requested_cpu_address,
            physical_address,
            fill_data,
            spec_u32_be_bytes(stored_word),
            provenance,
            Ok(plan),
        ),
    ensures
        spec_lookup_data_bytes(spec_apply_data_store(state, plan), physical_address) is Some,
        spec_be_u32(
            spec_lookup_data_bytes(spec_apply_data_store(state, plan), physical_address)->Some_0,
            physical_address as int % 16,
        ) == stored_word,
{
    lemma_data_store_then_lookup(
        state,
        requested_cpu_address,
        physical_address,
        fill_data,
        spec_u32_be_bytes(stored_word),
        provenance,
        plan,
    );
    let index = spec_data_line_index(physical_address);
    let base = spec_store_base(
        state.data_lines[index],
        index,
        spec_data_tag(physical_address),
        requested_cpu_address,
        physical_address,
        fill_data,
    )->Some_0.0;
    lemma_u32_round_trip(base@, physical_address as int % 16, stored_word);
}

/// Read after write: a halfword load of the address of an applied halfword store hits and
/// returns the stored halfword.
pub proof fn lemma_data_store_halfword_then_load_halfword(
    state: PrimaryCachesState,
    requested_cpu_address: CpuAddress,
    physical_address: u32,
    fill_data: [u8; 16],
    stored_halfword: u16,
    provenance: MachinePrimaryDataCacheStoreProvenance,
    plan: MachinePrimaryDataCacheStorePlan,
)
    requires
        state.data_lines.len() == 512,
        physical_address as int % 16 + 2 <= 16,
        store_plan_result(
            state,
            requested_cpu_address,
            physical_address,
            fill_data,
            spec_u16_be_bytes(stored_halfword),
            provenance,
            Ok(plan),
        ),
    ensures
        spec_lookup_data_bytes(spec_apply_data_store(state, plan), physical_address) is Some,
        spec_be_u16(
            spec_lookup_data_bytes(spec_apply_data_store(state, plan), physical_address)->Some_0,
            physical_address as int % 16,
        ) == stored_halfword,
{
    lemma_data_store_then_lookup(
        state,
        requested_cpu_address,
        physical_address,
        fill_data,
        spec_u16_be_bytes(stored_halfword),
        provenance,
        plan,
    );
    let index = spec_data_line_index(physical_address);
    let base = spec_store_base(
        state.data_lines[index],
        index,
        spec_data_tag(physical_address),
        requested_cpu_address,
        physical_address,
        fill_data,
    )->Some_0.0;
    lemma_u16_round_trip(base@, physical_address as int % 16, stored_halfword);
}

/// Read after write: a doubleword load of the address of an applied doubleword store hits
/// and returns the stored doubleword.
pub proof fn lemma_data_store_doubleword_then_load_doubleword(
    state: PrimaryCachesState,
    requested_cpu_address: CpuAddress,
    physical_address: u32,
    fill_data: [u8; 16],
    stored_doubleword: u64,
    provenance: MachinePrimaryDataCacheStoreProvenance,
    plan: MachinePrimaryDataCacheStorePlan,
)
    requires
        state.data_lines.len() == 512,
        physical_address as int % 16 + 8 <= 16,
        store_plan_result(
            state,
            requested_cpu_address,
            physical_address,
            fill_data,
            spec_u64_be_bytes(stored_doubleword),
            provenance,
            Ok(plan),
        ),
    ensures
        spec_lookup_data_bytes(spec_apply_data_store(state, plan), physical_address) is Some,
        spec_be_u64(
            spec_lookup_data_bytes(spec_apply_data_store(state, plan), physical_address)->Some_0,
            physical_address as int % 16,
        ) == stored_doubleword,
{
    lemma_data_store_then_lookup(
        state,
        requested_cpu_address,
        physical_address,
        fill_data,
        spec_u64_be_bytes(stored_doubleword),
        provenance,
        plan,
    );
    let index = spec_data_line_index(physical_address);
    let base = spec_store_base(
        state.data_lines[index],
        index,
        spec_data_tag(physical_address),
        requested_cpu_address,
        physical_address,
        fill_data,
    )->Some_0.0;
    lemma_u64_round_trip(base@, physical_address as int % 16, stored_doubleword);
}

/// A store leaves every byte of its line outside the stored bytes as the line held it
/// before the store (a hit) or as the fill brought it (a miss).
pub proof fn lemma_data_store_keeps_other_bytes(
    state: PrimaryCachesState,
    requested_cpu_address: CpuAddress,
    physical_address: u32,
    fill_data: [u8; 16],
    stored: Seq<u8>,
    provenance: MachinePrimaryDataCacheStoreProvenance,
    plan: MachinePrimaryDataCacheStorePlan,
    i: int,
)
    requires
        state.data_lines.len() == 512,
        0 <= i < 16,
        i < physical_address as int % 16 || physical_address as int % 16 + stored.len() <= i,
        store_plan_result(
            state,
            requested_cpu_address,
            physical_address,
            fill_data,
            stored,
            provenance,
            Ok(plan),
        ),
    ensures
        plan.data@[i] == (if plan.cache_hit {
            spec_lookup_data_bytes(state, physical_address)->Some_0[i]
        } else {
            fill_data@[i]
        }),
{
    let index = spec_data_line_index(physical_address);
    let base = spec_store_base(
        state.data_lines[index],
        index,
        spec_data_tag(physical_address),
        requested_cpu_address,
        physical_address,
        fill_data,
    )->Some_0.0;
    lemma_patch_frame(base@, physical_address as int % 16, stored, i);
}

/// A store touches one line of the data cache: every other line, and the whole
/// instruction cache, are as they were.
pub proof fn lemma_data_store_touches_one_line(
    state: PrimaryCachesState,
    plan: MachinePrimaryDataCacheStorePlan,
    other_index: int,
)
    requires
        plan.line_index < state.data_lines.len(),
        0 <= other_index < state.data_lines.len(),
        other_index != plan.line_index,
    ensures
        spec_apply_data_store(state, plan).data_lines[other_index] == state.data_lines[other_index],
        spec_apply_data_store(state, plan).instruction_lines == state.instruction_lines,
{
}

/// Byte `k` (0 the most significant) of a big-endian word.
pub open spec fn spec_word_byte(word: u32, k: int) -> u8 {
    if k == 0 {
        (word as int / 0x100_0000) as u8
    } else if k == 1 {
        (word as int / 0x1_0000 % 0x100) as u8
    } else if k == 2 {
        (word as int / 0x100 % 0x100) as u8
    } else {
        (word as int % 0x100) as u8
    }
}

/// A byte load agrees with a word load of the aligned word that holds it: both hit or
/// miss together, and on a hit the byte is the matching byte of the big-endian word.
pub proof fn lemma_data_byte_lookup_is_byte_of_word_lookup(
    state: PrimaryCachesState,
    physical_address: u32,
)
    ensures
        ({
            let word_address = (physical_address - physical_address % 4) as u32;
            &&& spec_lookup_data_bytes(state, physical_address) == spec_lookup_data_bytes(
                state,
                word_address,
            )
            &&& spec_lookup_data_bytes(state, word_address) matches Some(data) ==> data[
                physical_address as int % 16] == spec_word_byte(
                spec_be_u32(data, word_address as int % 16),
                physical_address as int % 4,
            )
        }),
{
    let pa = physical_address as int;
    let w = pa - pa % 4;
    assert(w / 0x10 == pa / 0x10 && w % 0x10 == pa % 0x10 - pa % 4 && w % 0x2000 == pa % 0x2000
        - pa % 4) by (nonlinear_arith)
        requires
            0 <= pa,
            w == pa - pa % 4,
    ;
    if let Some(data) = spec_lookup_data_bytes(state, (w) as u32) {
        let o = w % 16;
        let b0 = data[o] as int;
        let b1 = data[o + 1] as int;
        let b2 = data[o + 2] as int;
        let b3 = data[o + 3] as int;
        let v = b0 * 0x100_0000 + b1 * 0x1_0000 + b2 * 0x100 + b3;
        assert(0 <= b0 < 256 && 0 <= b1 < 256 && 0 <= b2 < 256 && 0 <= b3 < 256);
        assert(v / 0x100_0000 == b0 && v / 0x1_0000 % 0x100 == b1 && v / 0x100 % 0x100 == b2
            && v % 0x100 == b3) by (nonlinear_arith)
            requires
                0 <= b0 < 256,
                0 <= b1 < 256,
                0 <= b2 < 256,
                0 <= b3 < 256,
                v == b0 * 0x100_0000 + b1 * 0x1_0000 + b2 * 0x100 + b3,
        ;
        assert(spec_be_u32(data, o) as int == v);
    }
}
/// A hit writeback never loses dirty data: when the line that `physical_address` selects
/// is dirty and holds that address, the plan writes back exactly that line's bytes to the
/// RDRAM line that contains the address; and whenever a plan cleans a line it carries a
/// writeback.
pub proof fn lemma_hit_writeback_keeps_dirty_data(
    state: PrimaryCachesState,
    physical_address: u32,
    provenance: MachinePrimaryDataCacheHitWritebackProvenance,
)
    requires
        state.data_lines.len() == 512,
    ensures
        ({
            let line = state.data_lines[physical_address as int / 16 % 512];
            let plan = spec_plan_data_hit_writeback(state, physical_address, provenance);
            &&& (line is ValidDirty && line->ValidDirty_physical_tag as int == physical_address as int
                - physical_address as int % 0x2000) ==> {
                &&& plan is Ok
                &&& plan->Ok_0.cache_hit
                &&& plan->Ok_0.writeback is Some
                &&& plan->Ok_0.writeback->Some_0.data == line->ValidDirty_data
                &&& plan->Ok_0.writeback->Some_0.physical_line_address as int == physical_address as int
                    - physical_address as int % 16
            }
            &&& (plan is Ok && plan->Ok_0.cleaned_line is Some) ==> plan->Ok_0.writeback is Some
        }),
{
    let pa = physical_address as int;
    let index = pa / 16 % 512;
    let tag_int = pa - pa % 0x2000;
    assert(0 <= index < 512);
    assert(tag_int % 0x2000 == 0 && tag_int + index * 16 == pa - pa % 16) by (nonlinear_arith)
        requires
            0 <= pa,
            index == pa / 16 % 512,
            tag_int == pa - pa % 0x2000,
    ;
    let t = tag_int as u32;
    let x = (index * 16) as u32;
    assert(t % 0x2000 == 0 && x < 0x2000 ==> t | x == t + x) by (bit_vector);
}

} // verus!
