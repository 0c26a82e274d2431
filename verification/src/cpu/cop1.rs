use super::address::CpuAddress;
use super::{Cpu, CpuState};
use crate::machine::cartridge_bootstrap::MachineBootstrapGprSource;
use crate::machine::MachineLoadWordTarget;
use vstd::arithmetic::power2::pow2;
use vstd::prelude::*;

verus! {

pub const COP1_FCR31_DEFINED_FIELDS_MASK: u32 = 0x0183_ffff;
pub const COP1_FGR_COUNT: usize = 32;
pub const COP0_STATUS_FR: u32 = 0x0400_0000;
pub const COP1_FCR31_ROUNDING_MODE_MASK: u32 = 0x0000_0003;
pub const COP1_FCR31_INEXACT_FLAG: u32 = 0x0000_0004;
pub const COP1_FCR31_INEXACT_ENABLE: u32 = 0x0000_0080;
pub const COP1_FCR31_CAUSE_MASK: u32 = 0x0003_f000;
pub const COP1_FCR31_INEXACT_CAUSE: u32 = 0x0000_1000;

#[derive(Debug, Clone, Copy, PartialEq, Eq, Structural)]
pub enum MachineCop1FrMode {
    Fr0,
    Fr1,
}

#[derive(Debug, Clone, Copy, PartialEq, Eq, Structural)]
pub enum MachineCop1DataWordAvailability {
    Available,
    Unavailable,
}

#[derive(Debug, Clone, Copy, PartialEq, Eq, Structural)]
pub enum MachineCop1RoundingMode {
    NearestEven,
    TowardZero,
    TowardPositiveInfinity,
    TowardNegativeInfinity,
}

/// The rounding mode that FCR31 bits 1..0 select.
pub open spec fn spec_rounding_mode_from_fcr31(raw_word: u32) -> MachineCop1RoundingMode {
    let rm = raw_word % 4;
    if rm == 0 {
        MachineCop1RoundingMode::NearestEven
    } else if rm == 1 {
        MachineCop1RoundingMode::TowardZero
    } else if rm == 2 {
        MachineCop1RoundingMode::TowardPositiveInfinity
    } else {
        MachineCop1RoundingMode::TowardNegativeInfinity
    }
}

impl MachineCop1RoundingMode {
    pub fn from_fcr31(raw_word: u32) -> (r: Self)
        ensures
            r == spec_rounding_mode_from_fcr31(raw_word),
    {
        let rm = raw_word & COP1_FCR31_ROUNDING_MODE_MASK;
        assert(raw_word & 3u32 == raw_word % 4) by (bit_vector);
        if rm == 0 {
            MachineCop1RoundingMode::NearestEven
        } else if rm == 1 {
            MachineCop1RoundingMode::TowardZero
        } else if rm == 2 {
            MachineCop1RoundingMode::TowardPositiveInfinity
        } else {
            MachineCop1RoundingMode::TowardNegativeInfinity
        }
    }
}

/// The LWC1 that wrote one data word.
#[derive(Debug, Clone, Copy, PartialEq, Eq, Structural)]
pub struct MachineCop1Lwc1Provenance {
    pub instruction_pc: CpuAddress,
    pub memory_target: MachineLoadWordTarget,
    pub unavailable_source: Option<MachineBootstrapGprSource>,
}

impl MachineCop1Lwc1Provenance {
    pub fn new(
        instruction_pc: CpuAddress,
        memory_target: MachineLoadWordTarget,
        unavailable_source: Option<MachineBootstrapGprSource>,
    ) -> (r: Self)
        ensures
            r == (MachineCop1Lwc1Provenance { instruction_pc, memory_target, unavailable_source }),
    {
        Self { instruction_pc, memory_target, unavailable_source }
    }

    pub fn instruction_pc(self) -> (r: CpuAddress)
        ensures
            r == self.instruction_pc,
    {
        self.instruction_pc
    }

    pub fn memory_target(self) -> (r: MachineLoadWordTarget)
        ensures
            r == self.memory_target,
    {
        self.memory_target
    }

    pub fn unavailable_source(self) -> (r: Option<MachineBootstrapGprSource>)
        ensures
            r == self.unavailable_source,
    {
        self.unavailable_source
    }
}

#[derive(Debug, Clone, Copy, PartialEq, Eq, Structural)]
pub enum MachineCop1Ldc1WordRole {
    Low,
    High,
}

/// The LDC1 that wrote one data word, and which half of the doubleword it was.
#[derive(Debug, Clone, Copy, PartialEq, Eq, Structural)]
pub struct MachineCop1Ldc1Provenance {
    pub instruction_pc: CpuAddress,
    pub memory_target: MachineLoadWordTarget,
    pub word_role: MachineCop1Ldc1WordRole,
}

impl MachineCop1Ldc1Provenance {
    pub fn new(
        instruction_pc: CpuAddress,
        memory_target: MachineLoadWordTarget,
        word_role: MachineCop1Ldc1WordRole,
    ) -> (r: Self)
        ensures
            r == (MachineCop1Ldc1Provenance { instruction_pc, memory_target, word_role }),
    {
        Self { instruction_pc, memory_target, word_role }
    }

    pub fn instruction_pc(self) -> (r: CpuAddress)
        ensures
            r == self.instruction_pc,
    {
        self.instruction_pc
    }

    pub fn memory_target(self) -> (r: MachineLoadWordTarget)
        ensures
            r == self.memory_target,
    {
        self.memory_target
    }

    pub fn word_role(self) -> (r: MachineCop1Ldc1WordRole)
        ensures
            r == self.word_role,
    {
        self.word_role
    }
}

/// The MTC1 that wrote one data word.
#[derive(Debug, Clone, Copy, PartialEq, Eq, Structural)]
pub struct MachineCop1Mtc1Provenance {
    pub instruction_pc: CpuAddress,
    pub source_gpr: u8,
    pub source_lineage: MachineBootstrapGprSource,
}

impl MachineCop1Mtc1Provenance {
    pub fn new(
        instruction_pc: CpuAddress,
        source_gpr: u8,
        source_lineage: MachineBootstrapGprSource,
    ) -> (r: Self)
        ensures
            r == (MachineCop1Mtc1Provenance { instruction_pc, source_gpr, source_lineage }),
    {
        Self { instruction_pc, source_gpr, source_lineage }
    }

    pub fn instruction_pc(self) -> (r: CpuAddress)
        ensures
            r == self.instruction_pc,
    {
        self.instruction_pc
    }

    pub fn source_gpr(self) -> (r: u8)
        ensures
            r == self.source_gpr,
    {
        self.source_gpr
    }

    pub fn source_lineage(self) -> (r: MachineBootstrapGprSource)
        ensures
            r == self.source_lineage,
    {
        self.source_lineage
    }
}

/// The CVT.S.W that wrote one data word.
#[derive(Debug, Clone, Copy, PartialEq, Eq, Structural)]
pub struct MachineCop1CvtSingleWordProvenance {
    pub instruction_pc: CpuAddress,
    pub source_selector: u8,
    pub source_kind: MachineCop1DataWordSourceKind,
    pub source_instruction_pc: Option<CpuAddress>,
    pub inexact: bool,
}

impl MachineCop1CvtSingleWordProvenance {
    pub fn new(
        instruction_pc: CpuAddress,
        source_selector: u8,
        source_kind: MachineCop1DataWordSourceKind,
        source_instruction_pc: Option<CpuAddress>,
        inexact: bool,
    ) -> (r: Self)
        ensures
            r == (MachineCop1CvtSingleWordProvenance {
                instruction_pc,
                source_selector,
                source_kind,
                source_instruction_pc,
                inexact,
            }),
    {
        Self { instruction_pc, source_selector, source_kind, source_instruction_pc, inexact }
    }

    pub fn instruction_pc(self) -> (r: CpuAddress)
        ensures
            r == self.instruction_pc,
    {
        self.instruction_pc
    }

    pub fn source_selector(self) -> (r: u8)
        ensures
            r == self.source_selector,
    {
        self.source_selector
    }

    pub fn source_kind(self) -> (r: MachineCop1DataWordSourceKind)
        ensures
            r == self.source_kind,
    {
        self.source_kind
    }

    pub fn source_instruction_pc(self) -> (r: Option<CpuAddress>)
        ensures
            r == self.source_instruction_pc,
    {
        self.source_instruction_pc
    }

    pub fn inexact(self) -> (r: bool)
        ensures
            r == self.inexact,
    {
        self.inexact
    }
}

/// The instruction that wrote a data word, if any.
#[derive(Debug, Clone, Copy, PartialEq, Eq, Structural)]
pub enum MachineCop1DataWordSource {
    ConstructionUnavailable,
    Lwc1(MachineCop1Lwc1Provenance),
    Ldc1(MachineCop1Ldc1Provenance),
    Mtc1(MachineCop1Mtc1Provenance),
    CvtSingleWord(MachineCop1CvtSingleWordProvenance),
}

#[derive(Debug, Clone, Copy, PartialEq, Eq, Structural)]
pub enum MachineCop1DataWordSourceKind {
    ConstructionUnavailable,
    Lwc1,
    Ldc1,
    Mtc1,
    CvtSingleWord,
}

impl MachineCop1DataWordSource {
    pub open spec fn spec_kind(self) -> MachineCop1DataWordSourceKind {
        match self {
            MachineCop1DataWordSource::ConstructionUnavailable => MachineCop1DataWordSourceKind::ConstructionUnavailable,
            MachineCop1DataWordSource::Lwc1(_) => MachineCop1DataWordSourceKind::Lwc1,
            MachineCop1DataWordSource::Ldc1(_) => MachineCop1DataWordSourceKind::Ldc1,
            MachineCop1DataWordSource::Mtc1(_) => MachineCop1DataWordSourceKind::Mtc1,
            MachineCop1DataWordSource::CvtSingleWord(_) => MachineCop1DataWordSourceKind::CvtSingleWord,
        }
    }

    pub fn kind(self) -> (r: MachineCop1DataWordSourceKind)
        ensures
            r == self.spec_kind(),
    {
        match self {
            MachineCop1DataWordSource::ConstructionUnavailable => MachineCop1DataWordSourceKind::ConstructionUnavailable,
            MachineCop1DataWordSource::Lwc1(_) => MachineCop1DataWordSourceKind::Lwc1,
            MachineCop1DataWordSource::Ldc1(_) => MachineCop1DataWordSourceKind::Ldc1,
            MachineCop1DataWordSource::Mtc1(_) => MachineCop1DataWordSourceKind::Mtc1,
            MachineCop1DataWordSource::CvtSingleWord(_) => MachineCop1DataWordSourceKind::CvtSingleWord,
        }
    }

    pub fn instruction_pc(self) -> (r: Option<CpuAddress>)
        ensures
            r == (match self {
                MachineCop1DataWordSource::ConstructionUnavailable => None,
                MachineCop1DataWordSource::Lwc1(p) => Some(p.instruction_pc),
                MachineCop1DataWordSource::Ldc1(p) => Some(p.instruction_pc),
                MachineCop1DataWordSource::Mtc1(p) => Some(p.instruction_pc),
                MachineCop1DataWordSource::CvtSingleWord(p) => Some(p.instruction_pc),
            }),
    {
        match self {
            MachineCop1DataWordSource::ConstructionUnavailable => None,
            MachineCop1DataWordSource::Lwc1(p) => Some(p.instruction_pc()),
            MachineCop1DataWordSource::Ldc1(p) => Some(p.instruction_pc()),
            MachineCop1DataWordSource::Mtc1(p) => Some(p.instruction_pc()),
            MachineCop1DataWordSource::CvtSingleWord(p) => Some(p.instruction_pc()),
        }
    }
}

/// One COP1 data word: its bits when available, and the instruction that wrote it.
/// An unavailable word keeps raw bits zero.
#[derive(Debug, Clone, Copy, PartialEq, Eq, Structural)]
pub struct MachineCop1DataWordState {
    pub raw_word: u32,
    pub availability: MachineCop1DataWordAvailability,
    pub source: MachineCop1DataWordSource,
}

impl MachineCop1DataWordState {
    pub open spec fn spec_construction_unavailable() -> Self {
        MachineCop1DataWordState {
            raw_word: 0,
            availability: MachineCop1DataWordAvailability::Unavailable,
            source: MachineCop1DataWordSource::ConstructionUnavailable,
        }
    }

    pub fn construction_unavailable() -> (r: Self)
        ensures
            r == Self::spec_construction_unavailable(),
    {
        Self {
            raw_word: 0,
            availability: MachineCop1DataWordAvailability::Unavailable,
            source: MachineCop1DataWordSource::ConstructionUnavailable,
        }
    }

    pub fn from_lwc1_available(raw_word: u32, provenance: MachineCop1Lwc1Provenance) -> (r: Self)
        ensures
            r == (MachineCop1DataWordState {
                raw_word,
                availability: MachineCop1DataWordAvailability::Available,
                source: MachineCop1DataWordSource::Lwc1(provenance),
            }),
    {
        Self {
            raw_word,
            availability: MachineCop1DataWordAvailability::Available,
            source: MachineCop1DataWordSource::Lwc1(provenance),
        }
    }

    pub fn from_lwc1_unavailable(provenance: MachineCop1Lwc1Provenance) -> (r: Self)
        ensures
            r == (MachineCop1DataWordState {
                raw_word: 0,
                availability: MachineCop1DataWordAvailability::Unavailable,
                source: MachineCop1DataWordSource::Lwc1(provenance),
            }),
    {
        Self {
            raw_word: 0,
            availability: MachineCop1DataWordAvailability::Unavailable,
            source: MachineCop1DataWordSource::Lwc1(provenance),
        }
    }

    pub fn from_ldc1_available(raw_word: u32, provenance: MachineCop1Ldc1Provenance) -> (r: Self)
        ensures
            r == (MachineCop1DataWordState {
                raw_word,
                availability: MachineCop1DataWordAvailability::Available,
                source: MachineCop1DataWordSource::Ldc1(provenance),
            }),
    {
        Self {
            raw_word,
            availability: MachineCop1DataWordAvailability::Available,
            source: MachineCop1DataWordSource::Ldc1(provenance),
        }
    }

    pub fn from_mtc1_available(raw_word: u32, provenance: MachineCop1Mtc1Provenance) -> (r: Self)
        ensures
            r == (MachineCop1DataWordState {
                raw_word,
                availability: MachineCop1DataWordAvailability::Available,
                source: MachineCop1DataWordSource::Mtc1(provenance),
            }),
    {
        Self {
            raw_word,
            availability: MachineCop1DataWordAvailability::Available,
            source: MachineCop1DataWordSource::Mtc1(provenance),
        }
    }

    pub fn from_mtc1_unavailable(provenance: MachineCop1Mtc1Provenance) -> (r: Self)
        ensures
            r == (MachineCop1DataWordState {
                raw_word: 0,
                availability: MachineCop1DataWordAvailability::Unavailable,
                source: MachineCop1DataWordSource::Mtc1(provenance),
            }),
    {
        Self {
            raw_word: 0,
            availability: MachineCop1DataWordAvailability::Unavailable,
            source: MachineCop1DataWordSource::Mtc1(provenance),
        }
    }

    pub fn from_cvt_single_word_available(
        raw_word: u32,
        provenance: MachineCop1CvtSingleWordProvenance,
    ) -> (r: Self)
        ensures
            r == (MachineCop1DataWordState {
                raw_word,
                availability: MachineCop1DataWordAvailability::Available,
                source: MachineCop1DataWordSource::CvtSingleWord(provenance),
            }),
    {
        Self {
            raw_word,
            availability: MachineCop1DataWordAvailability::Available,
            source: MachineCop1DataWordSource::CvtSingleWord(provenance),
        }
    }

    pub fn availability(self) -> (r: MachineCop1DataWordAvailability)
        ensures
            r == self.availability,
    {
        self.availability
    }

    pub fn raw_word(self) -> (r: Option<u32>)
        ensures
            r == (match self.availability {
                MachineCop1DataWordAvailability::Available => Some(self.raw_word),
                MachineCop1DataWordAvailability::Unavailable => None,
            }),
    {
        match self.availability {
            MachineCop1DataWordAvailability::Available => Some(self.raw_word),
            MachineCop1DataWordAvailability::Unavailable => None,
        }
    }

    pub fn source(self) -> (r: MachineCop1DataWordSource)
        ensures
            r == self.source,
    {
        self.source
    }
}

/// The floating-point coprocessor: FCR31 (once bootstrap or an instruction defined it)
/// and the 32 data words.
#[derive(Debug, Clone, Copy)]
pub struct Cop1 {
    pub fcr31: Option<MachineCop1Fcr31State>,
    pub data_words: [MachineCop1DataWordState; 32],
}

/// Counts of the 32 data words by availability and by the instruction that wrote them.
#[derive(Debug, Clone, Copy, PartialEq, Eq, Structural)]
pub struct MachineCop1DataWordSummary {
    pub available_word_count: u8,
    pub unavailable_word_count: u8,
    pub construction_unavailable_word_count: u8,
    pub lwc1_word_count: u8,
    pub ldc1_word_count: u8,
    pub mtc1_word_count: u8,
    pub cvt_single_word_count: u8,
}

impl MachineCop1DataWordSummary {
    pub fn available_word_count(self) -> (r: u8)
        ensures
            r == self.available_word_count,
    {
        self.available_word_count
    }

    pub fn unavailable_word_count(self) -> (r: u8)
        ensures
            r == self.unavailable_word_count,
    {
        self.unavailable_word_count
    }

    pub fn construction_unavailable_word_count(self) -> (r: u8)
        ensures
            r == self.construction_unavailable_word_count,
    {
        self.construction_unavailable_word_count
    }

    pub fn lwc1_word_count(self) -> (r: u8)
        ensures
            r == self.lwc1_word_count,
    {
        self.lwc1_word_count
    }

    pub fn ldc1_word_count(self) -> (r: u8)
        ensures
            r == self.ldc1_word_count,
    {
        self.ldc1_word_count
    }

    pub fn mtc1_word_count(self) -> (r: u8)
        ensures
            r == self.mtc1_word_count,
    {
        self.mtc1_word_count
    }

    pub fn cvt_single_word_count(self) -> (r: u8)
        ensures
            r == self.cvt_single_word_count,
    {
        self.cvt_single_word_count
    }
}

/// The CVT.S.W whose result set FCR31's cause bits.
#[derive(Debug, Clone, Copy, PartialEq, Eq, Structural)]
pub struct MachineCop1CvtSingleWordFcr31Provenance {
    pub instruction_pc: CpuAddress,
    pub inexact: bool,
    pub trapped: bool,
}

impl MachineCop1CvtSingleWordFcr31Provenance {
    pub fn new(instruction_pc: CpuAddress, inexact: bool, trapped: bool) -> (r: Self)
        ensures
            r == (MachineCop1CvtSingleWordFcr31Provenance { instruction_pc, inexact, trapped }),
    {
        Self { instruction_pc, inexact, trapped }
    }

    pub fn instruction_pc(self) -> (r: CpuAddress)
        ensures
            r == self.instruction_pc,
    {
        self.instruction_pc
    }

    pub fn inexact(self) -> (r: bool)
        ensures
            r == self.inexact,
    {
        self.inexact
    }

    pub fn trapped(self) -> (r: bool)
        ensures
            r == self.trapped,
    {
        self.trapped
    }
}

/// The CTC1 that wrote FCR31.
#[derive(Debug, Clone, Copy, PartialEq, Eq, Structural)]
pub struct MachineCop1Fcr31WriteProvenance {
    pub instruction_pc: CpuAddress,
    pub source_gpr: u8,
    pub source_lineage: MachineBootstrapGprSource,
}

impl MachineCop1Fcr31WriteProvenance {
    pub fn new(
        instruction_pc: CpuAddress,
        source_gpr: u8,
        source_lineage: MachineBootstrapGprSource,
    ) -> (r: Self)
        ensures
            r == (MachineCop1Fcr31WriteProvenance { instruction_pc, source_gpr, source_lineage }),
    {
        Self { instruction_pc, source_gpr, source_lineage }
    }

    pub fn instruction_pc(self) -> (r: CpuAddress)
        ensures
            r == self.instruction_pc,
    {
        self.instruction_pc
    }

    pub fn source_gpr(self) -> (r: u8)
        ensures
            r == self.source_gpr,
    {
        self.source_gpr
    }

    pub fn source_lineage(self) -> (r: MachineBootstrapGprSource)
        ensures
            r == self.source_lineage,
    {
        self.source_lineage
    }
}

/// What last defined FCR31.
#[derive(Debug, Clone, Copy, PartialEq, Eq, Structural)]
pub enum MachineCop1Fcr31Source {
    PublicSyntheticColdX105Bootstrap,
    CleanRoomHleNtscX105Pinned,
    CpuControlTransfer(MachineCop1Fcr31WriteProvenance),
    CvtSingleWord(MachineCop1CvtSingleWordFcr31Provenance),
}

/// The FCR31 control/status word and what wrote it.
#[derive(Debug, Clone, Copy, PartialEq, Eq, Structural)]
pub struct MachineCop1Fcr31State {
    pub raw_word: u32,
    pub source: MachineCop1Fcr31Source,
}

/// FCR31 after a CVT.S.W: every cause bit is cleared, then an inexact result sets the
/// inexact cause, and also the sticky inexact flag unless the inexact exception traps.
pub open spec fn spec_fcr31_after_cvt_single_word(previous: u32, inexact: bool, trapped: bool) -> u32 {
    let cleared = previous & !COP1_FCR31_CAUSE_MASK;
    if !inexact {
        cleared
    } else if trapped {
        cleared | COP1_FCR31_INEXACT_CAUSE
    } else {
        cleared | COP1_FCR31_INEXACT_CAUSE | COP1_FCR31_INEXACT_FLAG
    }
}

impl MachineCop1Fcr31State {
    pub fn public_synthetic_cold_x105() -> (r: Self)
        ensures
            r == (MachineCop1Fcr31State {
                raw_word: 0,
                source: MachineCop1Fcr31Source::PublicSyntheticColdX105Bootstrap,
            }),
    {
        Self { raw_word: 0, source: MachineCop1Fcr31Source::PublicSyntheticColdX105Bootstrap }
    }

    pub fn clean_room_hle_ntsc_x105_pinned() -> (r: Self)
        ensures
            r == (MachineCop1Fcr31State {
                raw_word: 0,
                source: MachineCop1Fcr31Source::CleanRoomHleNtscX105Pinned,
            }),
    {
        Self { raw_word: 0, source: MachineCop1Fcr31Source::CleanRoomHleNtscX105Pinned }
    }

    /// FCR31 written by CTC1: only the defined fields are kept.
    pub fn from_cpu_control_transfer(
        transfer_word: u32,
        provenance: MachineCop1Fcr31WriteProvenance,
    ) -> (r: Self)
        ensures
            r == (MachineCop1Fcr31State {
                raw_word: transfer_word & COP1_FCR31_DEFINED_FIELDS_MASK,
                source: MachineCop1Fcr31Source::CpuControlTransfer(provenance),
            }),
    {
        Self {
            raw_word: transfer_word & COP1_FCR31_DEFINED_FIELDS_MASK,
            source: MachineCop1Fcr31Source::CpuControlTransfer(provenance),
        }
    }

    pub fn from_cvt_single_word(
        previous: Self,
        inexact: bool,
        provenance: MachineCop1CvtSingleWordFcr31Provenance,
    ) -> (r: Self)
        ensures
            r == (MachineCop1Fcr31State {
                raw_word: spec_fcr31_after_cvt_single_word(
                    previous.raw_word,
                    inexact,
                    provenance.trapped,
                ),
                source: MachineCop1Fcr31Source::CvtSingleWord(provenance),
            }),
    {
        let mut raw_word = previous.raw_word & !COP1_FCR31_CAUSE_MASK;
        if inexact {
            raw_word = raw_word | COP1_FCR31_INEXACT_CAUSE;
            if !provenance.trapped() {
                raw_word = raw_word | COP1_FCR31_INEXACT_FLAG;
            }
        }
        Self { raw_word, source: MachineCop1Fcr31Source::CvtSingleWord(provenance) }
    }

    pub fn raw_word(self) -> (r: u32)
        ensures
            r == self.raw_word,
    {
        self.raw_word
    }

    pub fn source(self) -> (r: MachineCop1Fcr31Source)
        ensures
            r == self.source,
    {
        self.source
    }

    pub fn rounding_mode(self) -> (r: MachineCop1RoundingMode)
        ensures
            r == spec_rounding_mode_from_fcr31(self.raw_word),
    {
        MachineCop1RoundingMode::from_fcr31(self.raw_word)
    }

    pub fn inexact_enable(self) -> (r: bool)
        ensures
            r == (self.raw_word & COP1_FCR31_INEXACT_ENABLE != 0),
    {
        self.raw_word & COP1_FCR31_INEXACT_ENABLE != 0
    }

    pub fn inexact_cause(self) -> (r: bool)
        ensures
            r == (self.raw_word & COP1_FCR31_INEXACT_CAUSE != 0),
    {
        self.raw_word & COP1_FCR31_INEXACT_CAUSE != 0
    }

    pub fn inexact_flag(self) -> (r: bool)
        ensures
            r == (self.raw_word & COP1_FCR31_INEXACT_FLAG != 0),
    {
        self.raw_word & COP1_FCR31_INEXACT_FLAG != 0
    }
}

proof fn lemma_fcr31_cvt_bits(previous: u32)
    by (bit_vector)
    ensures
        ((previous & !0x0003_f000u32) & !(0x0003_f000u32 | 4u32)) == previous & !(0x0003_f000u32
            | 4u32),
        (((previous & !0x0003_f000u32) | 0x1000u32) & !(0x0003_f000u32 | 4u32)) == previous & !(
        0x0003_f000u32 | 4u32),
        ((((previous & !0x0003_f000u32) | 0x1000u32) | 4u32) & !(0x0003_f000u32 | 4u32))
            == previous & !(0x0003_f000u32 | 4u32),
        ((previous & !0x0003_f000u32) & 0x1000u32) == 0,
        (((previous & !0x0003_f000u32) | 0x1000u32) & 0x1000u32) != 0,
        ((((previous & !0x0003_f000u32) | 0x1000u32) | 4u32) & 0x1000u32) != 0,
        ((previous & !0x0003_f000u32) & 0x0003_f000u32 & !0x1000u32) == 0,
        (((previous & !0x0003_f000u32) | 0x1000u32) & 0x0003_f000u32 & !0x1000u32) == 0,
        ((((previous & !0x0003_f000u32) | 0x1000u32) | 4u32) & 0x0003_f000u32 & !0x1000u32) == 0,
        ((previous & !0x0003_f000u32) & 4u32 != 0) == (previous & 4u32 != 0),
        (((previous & !0x0003_f000u32) | 0x1000u32) & 4u32 != 0) == (previous & 4u32 != 0),
        ((((previous & !0x0003_f000u32) | 0x1000u32) | 4u32) & 4u32) != 0,
{
}

/// A CVT.S.W clears the previous cause bits and keeps every other FCR31 bit but the
/// inexact flag; the inexact flag is sticky and is set only by an untrapped inexact result.
pub proof fn lemma_cvt_single_word_fcr31_laws(previous: u32, inexact: bool, trapped: bool)
    ensures
        ({
            let next = spec_fcr31_after_cvt_single_word(previous, inexact, trapped);
            &&& next & !(COP1_FCR31_CAUSE_MASK | COP1_FCR31_INEXACT_FLAG) == previous & !(
            COP1_FCR31_CAUSE_MASK | COP1_FCR31_INEXACT_FLAG)
            &&& (next & COP1_FCR31_INEXACT_CAUSE != 0) == inexact
            &&& next & COP1_FCR31_CAUSE_MASK & !COP1_FCR31_INEXACT_CAUSE == 0
            &&& (next & COP1_FCR31_INEXACT_FLAG != 0) == ((previous & COP1_FCR31_INEXACT_FLAG
                != 0) || (inexact && !trapped))
        }),
{
    lemma_fcr31_cvt_bits(previous);
}

/// The result of converting a signed word to binary32: the raw bits and whether rounding
/// changed the value.
#[derive(Debug, Clone, Copy, PartialEq, Eq, Structural)]
pub struct CvtSingleWordResult {
    pub raw_binary32_bits: u32,
    pub inexact: bool,
}

impl CvtSingleWordResult {
    pub fn raw_binary32_bits(self) -> (r: u32)
        ensures
            r == self.raw_binary32_bits,
    {
        self.raw_binary32_bits
    }

    pub fn inexact(self) -> (r: bool)
        ensures
            r == self.inexact,
    {
        self.inexact
    }
}

/// The position of the highest set bit of a nonzero magnitude.
pub open spec fn spec_highest_set_bit(m: nat) -> nat
    decreases m,
{
    if m <= 1 {
        0
    } else {
        1 + spec_highest_set_bit(m / 2)
    }
}

/// How many low bits of a magnitude do not fit a 24-bit significand.
pub open spec fn spec_discarded_bit_count(m: nat) -> nat {
    let h = spec_highest_set_bit(m);
    if h <= 23 {
        0
    } else {
        (h - 23) as nat
    }
}

/// Whether rounding the kept significand `q` away from zero is required: round to nearest
/// breaks ties to even; directed modes round inexact results toward their infinity.
pub open spec fn spec_round_increment(
    mode: MachineCop1RoundingMode,
    negative: bool,
    q: nat,
    remainder: nat,
    discarded: nat,
) -> bool {
    let inexact = remainder != 0;
    match mode {
        MachineCop1RoundingMode::NearestEven => inexact && (remainder > pow2(
            (discarded - 1) as nat,
        ) || (remainder == pow2((discarded - 1) as nat) && q % 2 == 1)),
        MachineCop1RoundingMode::TowardZero => false,
        MachineCop1RoundingMode::TowardPositiveInfinity => inexact && !negative,
        MachineCop1RoundingMode::TowardNegativeInfinity => inexact && negative,
    }
}

/// CVT.S.W: the binary32 encoding of `source` rounded in `mode` to a 24-bit significand,
/// and whether the rounding was inexact.
pub open spec fn spec_cvt_single_word(source: i32, mode: MachineCop1RoundingMode) -> (u32, bool) {
    if source == 0 {
        (0, false)
    } else {
        let negative = source < 0;
        let m: nat = if negative {
            (-source) as nat
        } else {
            source as nat
        };
        let h = spec_highest_set_bit(m);
        let d = spec_discarded_bit_count(m);
        let q: nat = if h <= 23 {
            m * pow2((23 - h) as nat)
        } else {
            m / pow2(d)
        };
        let remainder: nat = if h <= 23 {
            0
        } else {
            m % pow2(d)
        };
        let rounded: nat = q + if spec_round_increment(mode, negative, q, remainder, d) {
            1nat
        } else {
            0nat
        };
        let significand: nat = if rounded == 0x100_0000 {
            rounded / 2
        } else {
            rounded
        };
        let exponent: nat = h + 127 + if rounded == 0x100_0000 {
            1nat
        } else {
            0nat
        };
        (
            ((if negative {
                0x8000_0000nat
            } else {
                0nat
            }) + exponent * 0x80_0000 + significand % 0x80_0000) as u32,
            remainder != 0,
        )
    }
}

proof fn lemma_highest_set_bit_bounds(m: nat)
    requires
        m >= 1,
    ensures
        pow2(spec_highest_set_bit(m)) <= m < pow2(spec_highest_set_bit(m) + 1),
    decreases m,
{
    reveal(vstd::arithmetic::power::pow);
    vstd::arithmetic::power2::lemma_pow2_unfold(spec_highest_set_bit(m) + 1);
    if m > 1 {
        lemma_highest_set_bit_bounds(m / 2);
        vstd::arithmetic::power2::lemma_pow2_unfold(spec_highest_set_bit(m));
        vstd::arithmetic::power2::lemma_pow2_unfold(spec_highest_set_bit(m / 2) + 1);
    } else {
        vstd::arithmetic::power2::lemma2_to64();
    }
}

proof fn lemma_highest_set_bit_unique(m: nat, h: nat)
    requires
        pow2(h) <= m < pow2(h + 1),
    ensures
        spec_highest_set_bit(m) == h,
{
    vstd::arithmetic::power2::lemma_pow2_pos(h);
    lemma_highest_set_bit_bounds(m);
    let g = spec_highest_set_bit(m);
    if g < h {
        vstd::arithmetic::power2::lemma_pow2_strictly_increases(g, h);
        if g + 1 < h {
            vstd::arithmetic::power2::lemma_pow2_strictly_increases(g + 1, h);
        }
    } else if h < g {
        vstd::arithmetic::power2::lemma_pow2_strictly_increases(h, g);
        if h + 1 < g {
            vstd::arithmetic::power2::lemma_pow2_strictly_increases(h + 1, g);
        }
    }
}

proof fn lemma_binary32_fields(sign: u32, exponent: u32, significand: u32)
    requires
        sign < 2,
        exponent < 256,
    ensures
        (sign << 31u32) | (exponent << 23u32) | (significand & 0x007f_ffffu32) == sign
            * 0x8000_0000u32 + exponent * 0x80_0000u32 + significand % 0x80_0000u32,
{
    assert((sign << 31u32) | (exponent << 23u32) | (significand & 0x007f_ffffu32) == sign
        * 0x8000_0000u32 + exponent * 0x80_0000u32 + significand % 0x80_0000u32) by (bit_vector)
        requires
            sign < 2,
            exponent < 256,
    ;
}

/// Converts a signed word to binary32 with the given rounding mode (CVT.S.W).
pub fn convert_signed_word_to_binary32(source: i32, rounding_mode: MachineCop1RoundingMode) -> (r:
    CvtSingleWordResult)
    ensures
        (r.raw_binary32_bits, r.inexact) == spec_cvt_single_word(source, rounding_mode),
{
    if source == 0 {
        return CvtSingleWordResult { raw_binary32_bits: 0, inexact: false };
    }
    let negative = source < 0;
    let magnitude: u32 = if negative {
        (-(source as i64)) as u32
    } else {
        source as u32
    };
    let ghost m: nat = magnitude as nat;
    // The highest set bit, found by doubling a power of two up to the magnitude.
    let mut highest_set_bit: u32 = 0;
    let mut power: u64 = 1;
    proof {
        vstd::arithmetic::power2::lemma2_to64();
    }
    while power * 2 <= magnitude as u64
        invariant
            1 <= magnitude,
            highest_set_bit <= 31,
            power == pow2(highest_set_bit as nat),
            1 <= power <= magnitude,
        decreases magnitude - power,
    {
        proof {
            vstd::arithmetic::power2::lemma_pow2_unfold(highest_set_bit as nat + 1);
            if highest_set_bit >= 31 {
                vstd::arithmetic::power2::lemma2_to64();
                vstd::arithmetic::power2::lemma_pow2_strictly_increases(31, highest_set_bit as nat);
                assert(false);
            }
        }
        power = power * 2;
        highest_set_bit = highest_set_bit + 1;
    }
    proof {
        vstd::arithmetic::power2::lemma_pow2_unfold(highest_set_bit as nat + 1);
        lemma_highest_set_bit_unique(m, highest_set_bit as nat);
    }
    let mut exponent: u32 = highest_set_bit + 127;
    let mut significand: u32;
    let remainder: u32;
    let discarded_bit_count: u32;
    if highest_set_bit <= 23 {
        let scale_shift = 23 - highest_set_bit;
        proof {
            vstd::arithmetic::power2::lemma_pow2_adds(highest_set_bit as nat + 1, scale_shift as nat);
            vstd::arithmetic::power2::lemma2_to64();
            vstd::arithmetic::power2::lemma_pow2_pos(scale_shift as nat);
            assert(magnitude as int * pow2(scale_shift as nat) < pow2(highest_set_bit as nat + 1)
                * pow2(scale_shift as nat)) by (nonlinear_arith)
                requires
                    magnitude < pow2(highest_set_bit as nat + 1),
                    pow2(scale_shift as nat) > 0,
            ;
            vstd::bits::lemma_u32_shl_is_mul(magnitude, scale_shift);
        }
        significand = magnitude << scale_shift;
        remainder = 0;
        discarded_bit_count = 0;
    } else {
        discarded_bit_count = highest_set_bit - 23;
        proof {
            vstd::bits::lemma_u32_shr_is_div(magnitude, discarded_bit_count);
            vstd::arithmetic::power2::lemma2_to64();
            vstd::arithmetic::power2::lemma_pow2_strictly_increases(discarded_bit_count as nat, 32);
            vstd::arithmetic::power2::lemma_pow2_pos(discarded_bit_count as nat);
            vstd::bits::lemma_u32_shl_is_mul(1, discarded_bit_count);
        }
        let unit: u32 = 1u32 << discarded_bit_count;
        significand = magnitude >> discarded_bit_count;
        remainder = magnitude % unit;
    }
    let ghost q: nat = significand as nat;
    let ghost d: nat = discarded_bit_count as nat;
    proof {
        assert(d == spec_discarded_bit_count(m));
        // The kept significand has exactly 24 bits.
        vstd::arithmetic::power2::lemma2_to64();
        if highest_set_bit > 23 {
            vstd::arithmetic::power2::lemma_pow2_adds(d, 23);
            vstd::arithmetic::power2::lemma_pow2_adds(d, 24);
            vstd::arithmetic::div_mod::lemma_div_is_ordered(pow2(d + 23) as int, m as int, pow2(d) as int);
            vstd::arithmetic::div_mod::lemma_div_by_multiple(pow2(23) as int, pow2(d) as int);
            vstd::arithmetic::div_mod::lemma_div_by_multiple(pow2(24) as int, pow2(d) as int);
            vstd::arithmetic::div_mod::lemma_div_is_ordered(m as int, pow2(d + 24) as int - 1, pow2(d) as int);
            vstd::arithmetic::div_mod::lemma_div_by_multiple_is_strongly_ordered(m as int, pow2(d + 24) as int, pow2(24) as int, pow2(d) as int);
        } else {
            vstd::arithmetic::power2::lemma_pow2_adds(highest_set_bit as nat, (23 - highest_set_bit) as nat);
            assert(pow2(highest_set_bit as nat) * pow2((23 - highest_set_bit) as nat) <= m * pow2((23 - highest_set_bit) as nat)) by (nonlinear_arith)
                requires
                    pow2(highest_set_bit as nat) <= m,
            ;
        }
        assert(0x80_0000 <= q < 0x100_0000);
    }
    let inexact = remainder != 0;
    let increment = match rounding_mode {
        MachineCop1RoundingMode::NearestEven => {
            if inexact {
                proof {
                    vstd::arithmetic::power2::lemma_pow2_unfold(d);
                    vstd::bits::lemma_u32_shl_is_mul(1, (discarded_bit_count - 1) as u32);
                    vstd::arithmetic::power2::lemma_pow2_strictly_increases((d - 1) as nat, 32);
                }
                let half = 1u32 << (discarded_bit_count - 1);
                remainder > half || (remainder == half && significand % 2 != 0)
            } else {
                false
            }
        },
        MachineCop1RoundingMode::TowardZero => false,
        MachineCop1RoundingMode::TowardPositiveInfinity => inexact && !negative,
        MachineCop1RoundingMode::TowardNegativeInfinity => inexact && negative,
    };
    assert(increment == spec_round_increment(rounding_mode, negative, q, remainder as nat, d));
    let ghost rounded: nat = q + if increment {
        1nat
    } else {
        0nat
    };
    if increment {
        significand = significand + 1;
        if significand == 0x100_0000 {
            significand = significand / 2;
            exponent = exponent + 1;
        }
    }
    proof {
        lemma_binary32_fields(if negative {
            1
        } else {
            0
        }, exponent, significand);
    }
    let sign: u32 = if negative {
        1
    } else {
        0
    };
    CvtSingleWordResult {
        raw_binary32_bits: (sign << 31) | (exponent << 23) | (significand & 0x007f_ffff),
        inexact,
    }
}

/// Converting a power of two (or its negation) below 2^31 is exact in every rounding mode.
pub proof fn lemma_cvt_powers_of_two_are_exact(e: nat, mode: MachineCop1RoundingMode)
    requires
        e <= 30,
    ensures
        !spec_cvt_single_word(pow2(e) as i32, mode).1,
        !spec_cvt_single_word((-(pow2(e) as int)) as i32, mode).1,
{
    vstd::arithmetic::power2::lemma2_to64();
    vstd::arithmetic::power2::lemma_pow2_strictly_increases(e, 31);
    vstd::arithmetic::power2::lemma_pow2_unfold(e + 1);
    lemma_highest_set_bit_unique(pow2(e), e);
    if e > 23 {
        vstd::arithmetic::power2::lemma_pow2_adds((e - 23) as nat, 23);
        vstd::arithmetic::div_mod::lemma_mod_multiples_basic(pow2(23) as int, pow2((e - 23) as nat) as int);
        vstd::arithmetic::mul::lemma_mul_is_commutative(pow2(23) as int, pow2((e - 23) as nat) as int);
    }
}

impl Cop1 {
    /// FCR31 undefined and every data word unavailable from construction.
    pub open spec fn spec_is_new(self) -> bool {
        &&& self.fcr31 is None
        &&& self.data_words@ == Seq::new(
            32,
            |i: int| MachineCop1DataWordState::spec_construction_unavailable(),
        )
    }

    pub fn new() -> (r: Self)
        ensures
            r.spec_is_new(),
    {
        let r = Cop1 {
            fcr31: None,
            data_words: [MachineCop1DataWordState::construction_unavailable(); 32],
        };
        assert(r.data_words@ =~= Seq::new(
            32,
            |i: int| MachineCop1DataWordState::spec_construction_unavailable(),
        ));
        r
    }
}

/// The FR mode that Status bit 26 selects.
pub open spec fn spec_fr_mode(status: u32) -> MachineCop1FrMode {
    if status & COP0_STATUS_FR == 0 {
        MachineCop1FrMode::Fr0
    } else {
        MachineCop1FrMode::Fr1
    }
}

/// The number of words among `words` that satisfy `p`.
pub open spec fn spec_count_words(
    words: Seq<MachineCop1DataWordState>,
    p: spec_fn(MachineCop1DataWordState) -> bool,
) -> nat
    decreases words.len(),
{
    if words.len() == 0 {
        0
    } else {
        spec_count_words(words.drop_last(), p) + if p(words.last()) {
            1nat
        } else {
            0nat
        }
    }
}

pub open spec fn spec_is_available(w: MachineCop1DataWordState) -> bool {
    w.availability is Available
}

pub open spec fn spec_is_source_kind(
    kind: MachineCop1DataWordSourceKind,
) -> spec_fn(MachineCop1DataWordState) -> bool {
    |w: MachineCop1DataWordState| w.source.spec_kind() == kind
}

/// The summary of the data words `words`.
pub open spec fn spec_data_word_summary(words: Seq<MachineCop1DataWordState>) -> MachineCop1DataWordSummary {
    let available = spec_count_words(words, |w: MachineCop1DataWordState| spec_is_available(w));
    MachineCop1DataWordSummary {
        available_word_count: available as u8,
        unavailable_word_count: (32 - available) as u8,
        construction_unavailable_word_count: spec_count_words(
            words,
            spec_is_source_kind(MachineCop1DataWordSourceKind::ConstructionUnavailable),
        ) as u8,
        lwc1_word_count: spec_count_words(words, spec_is_source_kind(MachineCop1DataWordSourceKind::Lwc1)) as u8,
        ldc1_word_count: spec_count_words(words, spec_is_source_kind(MachineCop1DataWordSourceKind::Ldc1)) as u8,
        mtc1_word_count: spec_count_words(words, spec_is_source_kind(MachineCop1DataWordSourceKind::Mtc1)) as u8,
        cvt_single_word_count: spec_count_words(
            words,
            spec_is_source_kind(MachineCop1DataWordSourceKind::CvtSingleWord),
        ) as u8,
    }
}

proof fn lemma_count_words_bound(
    words: Seq<MachineCop1DataWordState>,
    p: spec_fn(MachineCop1DataWordState) -> bool,
)
    ensures
        spec_count_words(words, p) <= words.len(),
    decreases words.len(),
{
    if words.len() > 0 {
        lemma_count_words_bound(words.drop_last(), p);
    }
}

proof fn lemma_count_words_step(
    words: Seq<MachineCop1DataWordState>,
    i: int,
    p: spec_fn(MachineCop1DataWordState) -> bool,
)
    requires
        0 <= i < words.len(),
    ensures
        spec_count_words(words.take(i + 1), p) == spec_count_words(words.take(i), p) + if p(
            words[i],
        ) {
            1nat
        } else {
            0nat
        },
{
    assert(words.take(i + 1).drop_last() =~= words.take(i));
}

impl Cpu {
    pub fn cop1_fr_mode(&self) -> (r: MachineCop1FrMode)
        ensures
            r == spec_fr_mode(self@.cop0.status),
    {
        if (self.cop0.status & COP0_STATUS_FR) == 0 {
            MachineCop1FrMode::Fr0
        } else {
            MachineCop1FrMode::Fr1
        }
    }

    pub fn cop1_data_word_state(&self, selector: usize) -> (r: Option<MachineCop1DataWordState>)
        ensures
            r == (if selector < 32 {
                Some(self@.cop1.data_words[selector as int])
            } else {
                None
            }),
    {
        if selector < COP1_FGR_COUNT {
            Some(self.cop1.data_words[selector])
        } else {
            None
        }
    }

    pub fn cop1_data_word_summary(&self) -> (r: MachineCop1DataWordSummary)
        ensures
            r == spec_data_word_summary(self@.cop1.data_words@),
    {
        let words = self.cop1.data_words;
        let ghost all = words@;
        let mut available: u8 = 0;
        let mut construction: u8 = 0;
        let mut lwc1: u8 = 0;
        let mut ldc1: u8 = 0;
        let mut mtc1: u8 = 0;
        let mut cvt: u8 = 0;
        let mut i: usize = 0;
        while i < 32
            invariant
                i <= 32,
                all == words@,
                all.len() == 32,
                available == spec_count_words(all.take(i as int), |w: MachineCop1DataWordState| spec_is_available(w)),
                construction == spec_count_words(
                    all.take(i as int),
                    spec_is_source_kind(MachineCop1DataWordSourceKind::ConstructionUnavailable),
                ),
                lwc1 == spec_count_words(all.take(i as int), spec_is_source_kind(MachineCop1DataWordSourceKind::Lwc1)),
                ldc1 == spec_count_words(all.take(i as int), spec_is_source_kind(MachineCop1DataWordSourceKind::Ldc1)),
                mtc1 == spec_count_words(all.take(i as int), spec_is_source_kind(MachineCop1DataWordSourceKind::Mtc1)),
                cvt == spec_count_words(
                    all.take(i as int),
                    spec_is_source_kind(MachineCop1DataWordSourceKind::CvtSingleWord),
                ),
            decreases 32 - i,
        {
            let state = words[i];
            proof {
                lemma_count_words_step(all, i as int, |w: MachineCop1DataWordState| spec_is_available(w));
                lemma_count_words_step(all, i as int, spec_is_source_kind(MachineCop1DataWordSourceKind::ConstructionUnavailable));
                lemma_count_words_step(all, i as int, spec_is_source_kind(MachineCop1DataWordSourceKind::Lwc1));
                lemma_count_words_step(all, i as int, spec_is_source_kind(MachineCop1DataWordSourceKind::Ldc1));
                lemma_count_words_step(all, i as int, spec_is_source_kind(MachineCop1DataWordSourceKind::Mtc1));
                lemma_count_words_step(all, i as int, spec_is_source_kind(MachineCop1DataWordSourceKind::CvtSingleWord));
                lemma_count_words_bound(all.take(i as int), |w: MachineCop1DataWordState| spec_is_available(w));
                lemma_count_words_bound(all.take(i as int), spec_is_source_kind(MachineCop1DataWordSourceKind::ConstructionUnavailable));
                lemma_count_words_bound(all.take(i as int), spec_is_source_kind(MachineCop1DataWordSourceKind::Lwc1));
                lemma_count_words_bound(all.take(i as int), spec_is_source_kind(MachineCop1DataWordSourceKind::Ldc1));
                lemma_count_words_bound(all.take(i as int), spec_is_source_kind(MachineCop1DataWordSourceKind::Mtc1));
                lemma_count_words_bound(all.take(i as int), spec_is_source_kind(MachineCop1DataWordSourceKind::CvtSingleWord));
            }
            match state.availability {
                MachineCop1DataWordAvailability::Available => {
                    available = available + 1;
                },
                MachineCop1DataWordAvailability::Unavailable => {},
            }
            match state.source {
                MachineCop1DataWordSource::ConstructionUnavailable => {
                    construction = construction + 1;
                },
                MachineCop1DataWordSource::Lwc1(_) => {
                    lwc1 = lwc1 + 1;
                },
                MachineCop1DataWordSource::Ldc1(_) => {
                    ldc1 = ldc1 + 1;
                },
                MachineCop1DataWordSource::Mtc1(_) => {
                    mtc1 = mtc1 + 1;
                },
                MachineCop1DataWordSource::CvtSingleWord(_) => {
                    cvt = cvt + 1;
                },
            }
            i = i + 1;
        }
        assert(all.take(32) =~= all);
        proof {
            lemma_count_words_bound(all, |w: MachineCop1DataWordState| spec_is_available(w));
        }
        MachineCop1DataWordSummary {
            available_word_count: available,
            unavailable_word_count: 32 - available,
            construction_unavailable_word_count: construction,
            lwc1_word_count: lwc1,
            ldc1_word_count: ldc1,
            mtc1_word_count: mtc1,
            cvt_single_word_count: cvt,
        }
    }

    pub fn cop1_fcr31_state(&self) -> (r: Option<MachineCop1Fcr31State>)
        ensures
            r == self@.cop1.fcr31,
    {
        self.cop1.fcr31
    }

    pub fn stage_public_synthetic_cold_x105_fcr31(&mut self)
        ensures
            final(self)@ == (CpuState {
                cop1: Cop1 {
                    fcr31: Some(
                        MachineCop1Fcr31State {
                            raw_word: 0,
                            source: MachineCop1Fcr31Source::PublicSyntheticColdX105Bootstrap,
                        },
                    ),
                    ..old(self)@.cop1
                },
                ..old(self)@
            }),
    {
        self.cop1.fcr31 = Some(MachineCop1Fcr31State::public_synthetic_cold_x105());
    }

    pub fn stage_clean_room_hle_fcr31(&mut self)
        ensures
            final(self)@ == (CpuState {
                cop1: Cop1 {
                    fcr31: Some(
                        MachineCop1Fcr31State {
                            raw_word: 0,
                            source: MachineCop1Fcr31Source::CleanRoomHleNtscX105Pinned,
                        },
                    ),
                    ..old(self)@.cop1
                },
                ..old(self)@
            }),
    {
        self.cop1.fcr31 = Some(MachineCop1Fcr31State::clean_room_hle_ntsc_x105_pinned());
    }

    pub fn write_cop1_fcr31(&mut self, state: MachineCop1Fcr31State)
        ensures
            final(self)@ == (CpuState {
                cop1: Cop1 { fcr31: Some(state), ..old(self)@.cop1 },
                ..old(self)@
            }),
    {
        self.cop1.fcr31 = Some(state);
    }

    pub fn write_cop1_data_word(&mut self, selector: u8, state: MachineCop1DataWordState)
        requires
            selector < 32,
        ensures
            final(self)@.cop1.data_words@ == old(self)@.cop1.data_words@.update(
                selector as int,
                state,
            ),
            final(self)@.cop1.fcr31 == old(self)@.cop1.fcr31,
            final(self)@ == (CpuState { cop1: final(self)@.cop1, ..old(self)@ }),
    {
        self.cop1.data_words[selector as usize] = state;
    }
}

/// The rounding mode that FCR31 selects rounds in the direction its RM bits name. Split a
/// magnitude `m` into the kept part `m / 2^d` and the `d` discarded bits; the kept part
/// after rounding, scaled back by `2^d`, then lies:
/// with RM = 1 (toward zero) never above `m`; with RM = 2 (toward +infinity) never below the
/// exact value, so at least `m` for a positive source and at most `m` for a negative one;
/// with RM = 3 (toward -infinity) the other way round; with RM = 0 (nearest) within half a
/// unit of the last kept place, a tie going to an even kept part. In every mode the result
/// stays within one unit of the last kept place.
pub proof fn lemma_fcr31_rounding_direction(raw_word: u32, negative: bool, m: nat, d: nat)
    requires
        d >= 1,
    ensures
        ({
            let p = pow2(d) as int;
            let q = m / pow2(d);
            let rem = m % pow2(d);
            let mode = spec_rounding_mode_from_fcr31(raw_word);
            let kept = (q + if spec_round_increment(mode, negative, q, rem, d) {
                1int
            } else {
                0int
            }) * p;
            &&& raw_word % 4 == 1 ==> kept <= m
            &&& raw_word % 4 == 2 ==> (!negative ==> kept >= m) && (negative ==> kept <= m)
            &&& raw_word % 4 == 3 ==> (negative ==> kept >= m) && (!negative ==> kept <= m)
            &&& raw_word % 4 == 0 ==> 2 * (kept - m) <= p && 2 * (m - kept) <= p
            &&& raw_word % 4 == 0 && 2 * rem == p ==> (kept / p) % 2 == 0
            &&& kept - m < p && m - kept < p
        }),
{
    let p = pow2(d) as int;
    let half = pow2((d - 1) as nat) as int;
    vstd::arithmetic::power2::lemma_pow2_unfold(d);
    vstd::arithmetic::power2::lemma_pow2_pos(d);
    assert(p == 2 * half);
    let q = m / pow2(d);
    let rem = m % pow2(d);
    vstd::arithmetic::div_mod::lemma_fundamental_div_mod(m as int, p);
    vstd::arithmetic::div_mod::lemma_mod_bound(m as int, p);
    assert(m == p * q + rem);
    assert(q * p == p * q) by (nonlinear_arith);
    assert((q + 1) * p == q * p + p) by (nonlinear_arith);
    vstd::arithmetic::div_mod::lemma_div_multiples_vanish(q as int, p);
    vstd::arithmetic::div_mod::lemma_div_multiples_vanish((q + 1) as int, p);
}

} // verus!
