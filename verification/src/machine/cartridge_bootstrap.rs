use crate::cartridge::byte_order::RomSourceLayout;
use crate::cartridge::{
    CartridgeReadError, CARTRIDGE_CANDIDATE_IPL3_END_OFFSET_EXCLUSIVE,
    CARTRIDGE_CANDIDATE_IPL3_START_OFFSET,
};
use crate::cartridge::{Cartridge, CARTRIDGE_CANDIDATE_IPL3_BYTE_COUNT};
use crate::cpu::cache::spec_cold_primary_caches;
use crate::cpu::cop0::Cop0;
use crate::cpu::{Cpu, CpuState, CPU_GPR_COUNT};
use crate::cpu::address::CpuAddress;
use crate::cpu::instruction::{decodes_from, CpuInstructionFields, CpuInstructionIdentity};
use crate::cpu::registers::CpuRegisterIndexError;
use crate::pif::PifIpl2Profile;
use vstd::prelude::*;

verus! {

pub const MACHINE_CARTRIDGE_BOOTSTRAP_EXECUTION_PC: u32 = 0xa400_0040;

pub const MACHINE_CARTRIDGE_BOOTSTRAP_NEXT_PC: u32 = 0xa400_0044;

pub const MACHINE_CARTRIDGE_BOOTSTRAP_SP_DMEM_START_OFFSET: u32 =
    CARTRIDGE_CANDIDATE_IPL3_START_OFFSET;

pub const MACHINE_CARTRIDGE_BOOTSTRAP_SP_DMEM_END_OFFSET_EXCLUSIVE: u32 =
    CARTRIDGE_CANDIDATE_IPL3_END_OFFSET_EXCLUSIVE;

pub const MACHINE_PIF_IPL2_HANDOFF_T3_GPR_INDEX: u8 = 11;

pub const MACHINE_PIF_IPL2_HANDOFF_T3_VALUE: u64 = 0xffff_ffff_a400_0040;

pub const MACHINE_PIF_IPL2_HANDOFF_SP_GPR_INDEX: u8 = 29;

pub const MACHINE_PIF_IPL2_HANDOFF_SP_VALUE: u64 = 0xffff_ffff_a400_1ff0;

pub const MACHINE_PIF_IPL2_HANDOFF_RA_GPR_INDEX: u8 = 31;

pub const MACHINE_PIF_IPL2_HANDOFF_NTSC_RA_VALUE: u64 = 0xffff_ffff_a400_1550;

pub const MACHINE_PIF_IPL2_HANDOFF_NTSC_LINK_INSTRUCTION_ADDRESS: u32 = 0xa400_1548;

pub const MACHINE_PIF_IPL2_HANDOFF_S3_GPR_INDEX: u8 = 19;

pub const MACHINE_PIF_IPL2_HANDOFF_S4_GPR_INDEX: u8 = 20;

pub const MACHINE_PIF_IPL2_HANDOFF_S5_GPR_INDEX: u8 = 21;

pub const MACHINE_PIF_IPL2_HANDOFF_S6_GPR_INDEX: u8 = 22;

pub const MACHINE_PIF_IPL2_HANDOFF_S7_GPR_INDEX: u8 = 23;

pub const MACHINE_PIF_IPL2_HANDOFF_X105_SEED: u64 = 0x91;

pub const MACHINE_PIF_IPL1_STATUS: u32 = 0x3400_0000;

#[derive(Debug, Clone, Copy, PartialEq, Eq, Structural)]
pub enum MachinePifIpl3Family {
    X105,
}

#[derive(Debug, Clone, Copy, PartialEq, Eq, Structural)]
pub enum MachinePifIpl2HandoffResetKind {
    Cold,
}

#[derive(Debug, Clone, Copy, PartialEq, Eq, Structural)]
pub enum MachinePifIpl2HandoffBootMedium {
    Cartridge,
}

#[derive(Debug, Clone, Copy, PartialEq, Eq, Structural)]
pub enum MachinePifVersionBit {
    Zero,
    One,
}

impl MachinePifVersionBit {
    pub open spec fn spec_value(self) -> u8 {
        match self {
            MachinePifVersionBit::Zero => 0,
            MachinePifVersionBit::One => 1,
        }
    }

    pub fn value(self) -> (r: u8)
        ensures
            r == self.spec_value(),
    {
        match self {
            MachinePifVersionBit::Zero => 0,
            MachinePifVersionBit::One => 1,
        }
    }
}

/// The four explicit inputs that the cold x105 IPL2 handoff consumes.
#[derive(Debug, Clone, Copy, PartialEq, Eq, Structural)]
pub struct MachinePifIpl2HandoffInputs {
    pub ipl3_family: MachinePifIpl3Family,
    pub reset_kind: MachinePifIpl2HandoffResetKind,
    pub boot_medium: MachinePifIpl2HandoffBootMedium,
    pub pif_version_bit: MachinePifVersionBit,
}

impl MachinePifIpl2HandoffInputs {
    pub fn new(
        ipl3_family: MachinePifIpl3Family,
        reset_kind: MachinePifIpl2HandoffResetKind,
        boot_medium: MachinePifIpl2HandoffBootMedium,
        pif_version_bit: MachinePifVersionBit,
    ) -> (r: Self)
        ensures
            r == (MachinePifIpl2HandoffInputs {
                ipl3_family,
                reset_kind,
                boot_medium,
                pif_version_bit,
            }),
    {
        Self { ipl3_family, reset_kind, boot_medium, pif_version_bit }
    }

    pub fn ipl3_family(self) -> (r: MachinePifIpl3Family)
        ensures
            r == self.ipl3_family,
    {
        self.ipl3_family
    }

    pub fn reset_kind(self) -> (r: MachinePifIpl2HandoffResetKind)
        ensures
            r == self.reset_kind,
    {
        self.reset_kind
    }

    pub fn boot_medium(self) -> (r: MachinePifIpl2HandoffBootMedium)
        ensures
            r == self.boot_medium,
    {
        self.boot_medium
    }

    pub fn pif_version_bit(self) -> (r: MachinePifVersionBit)
        ensures
            r == self.pif_version_bit,
    {
        self.pif_version_bit
    }
}

#[derive(Debug, Clone, Copy, PartialEq, Eq, Structural)]
pub enum MachineBootstrapCpuStateKind {
    /// The represented reset subset plus the IPL3 `pc / next_pc` pair.
    RepresentedResetSubset,
    /// The complete cold cartridge x105 handoff for the pinned NTSC PIF layout.
    CoupledColdX105NtscPinned,
    /// The firmware-free cartridge-entry state of the pinned NTSC x105 profile.
    CleanRoomCartridgeEntryNtscX105Pinned,
}

/// Where the value of one general-purpose register came from during boot.
#[derive(Debug, Clone, Copy, PartialEq, Eq, Structural)]
pub enum MachineBootstrapGprSource {
    UnknownPifProduced,
    ArchitecturalZero,
    PifIpl2HandoffEntryPointer,
    PifIpl2RestoredStackPointer,
    PifIpl2RetainedLink { profile: PifIpl2Profile, link_instruction_address: CpuAddress },
    CartridgeBootMedium,
    PifProfileTvType { profile: PifIpl2Profile },
    ColdResetKind,
    X105Seed,
    PifVersionRegionalState { profile: PifIpl2Profile, pif_version_bit: MachinePifVersionBit },
    KnownInstructionResult {
        execution_address: CpuAddress,
        identity: CpuInstructionIdentity,
        source_gpr_a: Option<u8>,
        source_gpr_b: Option<u8>,
    },
    CleanRoomHlePublicProfile,
    CleanRoomHleCartridgeEntry,
    CleanRoomHleCartridgePayload,
}

impl MachineBootstrapGprSource {
    pub fn is_known(self) -> (r: bool)
        ensures
            r == !(self is UnknownPifProduced),
    {
        match self {
            MachineBootstrapGprSource::UnknownPifProduced => false,
            _ => true,
        }
    }
}

#[derive(Debug, Clone, Copy, PartialEq, Eq, Structural)]
pub enum MachineBootstrapCop0StatusSource {
    UnknownPifProduced,
    PifIpl1ColdBootStatus,
    CleanRoomHlePublicProfile,
}

impl MachineBootstrapCop0StatusSource {
    pub fn is_known(self) -> (r: bool)
        ensures
            r == !(self is UnknownPifProduced),
    {
        match self {
            MachineBootstrapCop0StatusSource::UnknownPifProduced => false,
            _ => true,
        }
    }
}

#[derive(Debug, Clone, Copy, PartialEq, Eq, Structural)]
pub enum MachineBootstrapControlFlowSource {
    DirectCartridgeBootstrapStaging,
    PifIpl2CompletedX105Transfer { profile: PifIpl2Profile },
}

/// A bootstrap instruction read a register whose boot value is unknown.
#[derive(Debug, Clone, Copy, PartialEq, Eq, Structural)]
pub struct MachineBootstrapCpuStateUnavailable {
    pub cpu_address: CpuAddress,
    pub identity: CpuInstructionIdentity,
    pub register_index: u8,
    pub source: MachineBootstrapGprSource,
}

impl MachineBootstrapCpuStateUnavailable {
    pub fn cpu_address(self) -> (r: CpuAddress)
        ensures
            r == self.cpu_address,
    {
        self.cpu_address
    }

    pub fn identity(self) -> (r: CpuInstructionIdentity)
        ensures
            r == self.identity,
    {
        self.identity
    }

    pub fn register_index(self) -> (r: u8)
        ensures
            r == self.register_index,
    {
        self.register_index
    }

    pub fn source(self) -> (r: MachineBootstrapGprSource)
        ensures
            r == self.source,
    {
        self.source
    }
}

#[derive(Debug, Clone, Copy, PartialEq, Eq, Structural)]
pub enum MachinePifIpl2HandoffInputKind {
    PifIpl2Profile,
    Ipl3Family,
    ResetKind,
    BootMedium,
    PifVersionBit,
}

impl MachinePifIpl2HandoffInputKind {
    pub open spec fn spec_name(self) -> Seq<char> {
        match self {
            MachinePifIpl2HandoffInputKind::PifIpl2Profile => "pif-ipl2-profile"@,
            MachinePifIpl2HandoffInputKind::Ipl3Family => "ipl3-family"@,
            MachinePifIpl2HandoffInputKind::ResetKind => "reset-kind"@,
            MachinePifIpl2HandoffInputKind::BootMedium => "boot-medium"@,
            MachinePifIpl2HandoffInputKind::PifVersionBit => "pif-version-bit"@,
        }
    }

    pub fn name(self) -> (r: &'static str)
        ensures
            r@ == self.spec_name(),
    {
        match self {
            MachinePifIpl2HandoffInputKind::PifIpl2Profile => "pif-ipl2-profile",
            MachinePifIpl2HandoffInputKind::Ipl3Family => "ipl3-family",
            MachinePifIpl2HandoffInputKind::ResetKind => "reset-kind",
            MachinePifIpl2HandoffInputKind::BootMedium => "boot-medium",
            MachinePifIpl2HandoffInputKind::PifVersionBit => "pif-version-bit",
        }
    }
}

#[derive(Debug, Clone, PartialEq, Eq)]
pub enum MachineCartridgeBootstrapError {
    CartridgeSourceRangeUnavailable { required_end_offset_exclusive: u32, actual_size_bytes: usize },
    CartridgeRead(CartridgeReadError),
    SpDmemDestinationRangeUnavailable { start_offset: u32, byte_count: usize },
    SpImemPifIpl2CopyDestinationRangeUnavailable { start_offset: u32, byte_count: usize },
    PifIpl2ProfileRequiresFirmware { profile: PifIpl2Profile },
    MissingPifIpl2HandoffInput { input: MachinePifIpl2HandoffInputKind },
    UnsupportedPifIpl2HandoffProfile { profile: PifIpl2Profile },
    CpuRegister(CpuRegisterIndexError),
}

/// The register values and status that the cold x105 handoff stages.
#[derive(Debug, Clone, Copy, PartialEq, Eq, Structural)]
pub struct ColdX105CoupledHandoffPlan {
    pub inputs: MachinePifIpl2HandoffInputs,
    pub profile: PifIpl2Profile,
    pub t3: u64,
    pub sp: u64,
    pub ra: u64,
    pub s3: u64,
    pub s4: u64,
    pub s5: u64,
    pub s6: u64,
    pub s7: u64,
    pub cop0_status: u32,
}

/// The boot inputs that a machine has been given before cartridge bootstrap.
#[derive(Debug, Clone, Copy, PartialEq, Eq, Structural)]
pub struct MachinePifBootInputs {
    pub firmware_installed: bool,
    pub profile: Option<PifIpl2Profile>,
    pub ipl3_family: Option<MachinePifIpl3Family>,
    pub reset_kind: Option<MachinePifIpl2HandoffResetKind>,
    pub boot_medium: Option<MachinePifIpl2HandoffBootMedium>,
    pub pif_version_bit: Option<MachinePifVersionBit>,
}

/// The handoff planned from the boot inputs: none unless a handoff input is present; then
/// the missing input checked in a fixed order, firmware, and the NTSC profile are required.
pub open spec fn spec_cold_x105_coupled_handoff(inputs: MachinePifBootInputs) -> Result<
    Option<ColdX105CoupledHandoffPlan>,
    MachineCartridgeBootstrapError,
> {
    if inputs.ipl3_family is None && inputs.reset_kind is None && inputs.boot_medium is None
        && inputs.pif_version_bit is None {
        Ok(None)
    } else if inputs.profile is None {
        Err(
            MachineCartridgeBootstrapError::MissingPifIpl2HandoffInput {
                input: MachinePifIpl2HandoffInputKind::PifIpl2Profile,
            },
        )
    } else if !inputs.firmware_installed {
        Err(
            MachineCartridgeBootstrapError::PifIpl2ProfileRequiresFirmware {
                profile: inputs.profile->0,
            },
        )
    } else if inputs.ipl3_family is None {
        Err(
            MachineCartridgeBootstrapError::MissingPifIpl2HandoffInput {
                input: MachinePifIpl2HandoffInputKind::Ipl3Family,
            },
        )
    } else if inputs.reset_kind is None {
        Err(
            MachineCartridgeBootstrapError::MissingPifIpl2HandoffInput {
                input: MachinePifIpl2HandoffInputKind::ResetKind,
            },
        )
    } else if inputs.boot_medium is None {
        Err(
            MachineCartridgeBootstrapError::MissingPifIpl2HandoffInput {
                input: MachinePifIpl2HandoffInputKind::BootMedium,
            },
        )
    } else if inputs.pif_version_bit is None {
        Err(
            MachineCartridgeBootstrapError::MissingPifIpl2HandoffInput {
                input: MachinePifIpl2HandoffInputKind::PifVersionBit,
            },
        )
    } else if inputs.profile->0 != PifIpl2Profile::NtscPinned {
        Err(
            MachineCartridgeBootstrapError::UnsupportedPifIpl2HandoffProfile {
                profile: inputs.profile->0,
            },
        )
    } else {
        Ok(
            Some(
                ColdX105CoupledHandoffPlan {
                    inputs: MachinePifIpl2HandoffInputs {
                        ipl3_family: inputs.ipl3_family->0,
                        reset_kind: inputs.reset_kind->0,
                        boot_medium: inputs.boot_medium->0,
                        pif_version_bit: inputs.pif_version_bit->0,
                    },
                    profile: PifIpl2Profile::NtscPinned,
                    t3: MACHINE_PIF_IPL2_HANDOFF_T3_VALUE,
                    sp: MACHINE_PIF_IPL2_HANDOFF_SP_VALUE,
                    ra: MACHINE_PIF_IPL2_HANDOFF_NTSC_RA_VALUE,
                    s3: 0,
                    s4: 1,
                    s5: 0,
                    s6: MACHINE_PIF_IPL2_HANDOFF_X105_SEED,
                    s7: inputs.pif_version_bit->0.spec_value() as u64,
                    cop0_status: MACHINE_PIF_IPL1_STATUS,
                },
            ),
        )
    }
}

pub fn plan_cold_x105_coupled_handoff(inputs: MachinePifBootInputs) -> (r: Result<
    Option<ColdX105CoupledHandoffPlan>,
    MachineCartridgeBootstrapError,
>)
    ensures
        r == spec_cold_x105_coupled_handoff(inputs),
{
    let handoff_requested = inputs.ipl3_family.is_some() || inputs.reset_kind.is_some()
        || inputs.boot_medium.is_some() || inputs.pif_version_bit.is_some();
    if !handoff_requested {
        return Ok(None);
    }
    let profile = match inputs.profile {
        Some(profile) => profile,
        None => {
            return Err(
                MachineCartridgeBootstrapError::MissingPifIpl2HandoffInput {
                    input: MachinePifIpl2HandoffInputKind::PifIpl2Profile,
                },
            )
        },
    };
    if !inputs.firmware_installed {
        return Err(MachineCartridgeBootstrapError::PifIpl2ProfileRequiresFirmware { profile });
    }
    let ipl3_family = match inputs.ipl3_family {
        Some(value) => value,
        None => {
            return Err(
                MachineCartridgeBootstrapError::MissingPifIpl2HandoffInput {
                    input: MachinePifIpl2HandoffInputKind::Ipl3Family,
                },
            )
        },
    };
    let reset_kind = match inputs.reset_kind {
        Some(value) => value,
        None => {
            return Err(
                MachineCartridgeBootstrapError::MissingPifIpl2HandoffInput {
                    input: MachinePifIpl2HandoffInputKind::ResetKind,
                },
            )
        },
    };
    let boot_medium = match inputs.boot_medium {
        Some(value) => value,
        None => {
            return Err(
                MachineCartridgeBootstrapError::MissingPifIpl2HandoffInput {
                    input: MachinePifIpl2HandoffInputKind::BootMedium,
                },
            )
        },
    };
    let pif_version_bit = match inputs.pif_version_bit {
        Some(value) => value,
        None => {
            return Err(
                MachineCartridgeBootstrapError::MissingPifIpl2HandoffInput {
                    input: MachinePifIpl2HandoffInputKind::PifVersionBit,
                },
            )
        },
    };
    match profile {
        PifIpl2Profile::NtscPinned => {},
        _ => {
            return Err(MachineCartridgeBootstrapError::UnsupportedPifIpl2HandoffProfile { profile });
        },
    }
    let handoff_inputs = MachinePifIpl2HandoffInputs::new(
        ipl3_family,
        reset_kind,
        boot_medium,
        pif_version_bit,
    );
    Ok(
        Some(
            ColdX105CoupledHandoffPlan {
                inputs: handoff_inputs,
                profile,
                t3: MACHINE_PIF_IPL2_HANDOFF_T3_VALUE,
                sp: MACHINE_PIF_IPL2_HANDOFF_SP_VALUE,
                ra: MACHINE_PIF_IPL2_HANDOFF_NTSC_RA_VALUE,
                s3: 0,
                s4: 1,
                s5: 0,
                s6: MACHINE_PIF_IPL2_HANDOFF_X105_SEED,
                s7: pif_version_bit.value() as u64,
                cop0_status: MACHINE_PIF_IPL1_STATUS,
            },
        ),
    )
}

/// The general-purpose registers that one bootstrap instruction reads and writes.
#[derive(Debug, Clone, Copy, PartialEq, Eq, Structural)]
pub struct BootstrapGprAccess {
    pub source_a: Option<u8>,
    pub source_b: Option<u8>,
    pub destination: Option<u8>,
}

pub open spec fn spec_bootstrap_gpr_access(
    fields: CpuInstructionFields,
    identity: CpuInstructionIdentity,
) -> BootstrapGprAccess {
    match identity {
        CpuInstructionIdentity::SpecialSll
        | CpuInstructionIdentity::SpecialSrl
        | CpuInstructionIdentity::SpecialSra
        | CpuInstructionIdentity::SpecialDsll
        | CpuInstructionIdentity::SpecialDsrl
        | CpuInstructionIdentity::SpecialDsra
        | CpuInstructionIdentity::SpecialDsll32
        | CpuInstructionIdentity::SpecialDsrl32
        | CpuInstructionIdentity::SpecialDsra32 => BootstrapGprAccess {
            source_a: Some(fields.spec_rt()),
            source_b: None,
            destination: Some(fields.spec_rd()),
        },
        CpuInstructionIdentity::SpecialSllv
        | CpuInstructionIdentity::SpecialSrlv
        | CpuInstructionIdentity::SpecialSrav
        | CpuInstructionIdentity::SpecialDsllv
        | CpuInstructionIdentity::SpecialDsrlv
        | CpuInstructionIdentity::SpecialDsrav
        | CpuInstructionIdentity::SpecialAnd
        | CpuInstructionIdentity::SpecialOr
        | CpuInstructionIdentity::SpecialXor
        | CpuInstructionIdentity::SpecialNor
        | CpuInstructionIdentity::SpecialAddu
        | CpuInstructionIdentity::SpecialSubu
        | CpuInstructionIdentity::SpecialDaddu
        | CpuInstructionIdentity::SpecialDsubu
        | CpuInstructionIdentity::SpecialSlt
        | CpuInstructionIdentity::SpecialSltu
        | CpuInstructionIdentity::SpecialAdd
        | CpuInstructionIdentity::SpecialSub
        | CpuInstructionIdentity::SpecialDadd
        | CpuInstructionIdentity::SpecialDsub => BootstrapGprAccess {
            source_a: Some(fields.spec_rs()),
            source_b: Some(fields.spec_rt()),
            destination: Some(fields.spec_rd()),
        },
        CpuInstructionIdentity::SpecialMthi | CpuInstructionIdentity::SpecialMtlo => {
            BootstrapGprAccess { source_a: Some(fields.spec_rs()), source_b: None, destination: None }
        },
        CpuInstructionIdentity::SpecialMfhi | CpuInstructionIdentity::SpecialMflo => {
            BootstrapGprAccess { source_a: None, source_b: None, destination: Some(fields.spec_rd()) }
        },
        CpuInstructionIdentity::Addi
        | CpuInstructionIdentity::Daddi
        | CpuInstructionIdentity::Addiu
        | CpuInstructionIdentity::Daddiu
        | CpuInstructionIdentity::Slti
        | CpuInstructionIdentity::Sltiu
        | CpuInstructionIdentity::Andi
        | CpuInstructionIdentity::Ori
        | CpuInstructionIdentity::Xori
        | CpuInstructionIdentity::Lw => BootstrapGprAccess {
            source_a: Some(fields.spec_rs()),
            source_b: None,
            destination: Some(fields.spec_rt()),
        },
        CpuInstructionIdentity::Lui => BootstrapGprAccess {
            source_a: None,
            source_b: None,
            destination: Some(fields.spec_rt()),
        },
        _ => BootstrapGprAccess { source_a: None, source_b: None, destination: None },
    }
}

pub fn bootstrap_gpr_access(fields: CpuInstructionFields, identity: CpuInstructionIdentity) -> (r:
    BootstrapGprAccess)
    ensures
        r == spec_bootstrap_gpr_access(fields, identity),
{
    match identity {
        CpuInstructionIdentity::SpecialSll
        | CpuInstructionIdentity::SpecialSrl
        | CpuInstructionIdentity::SpecialSra
        | CpuInstructionIdentity::SpecialDsll
        | CpuInstructionIdentity::SpecialDsrl
        | CpuInstructionIdentity::SpecialDsra
        | CpuInstructionIdentity::SpecialDsll32
        | CpuInstructionIdentity::SpecialDsrl32
        | CpuInstructionIdentity::SpecialDsra32 => BootstrapGprAccess {
            source_a: Some(fields.rt()),
            source_b: None,
            destination: Some(fields.rd()),
        },
        CpuInstructionIdentity::SpecialSllv
        | CpuInstructionIdentity::SpecialSrlv
        | CpuInstructionIdentity::SpecialSrav
        | CpuInstructionIdentity::SpecialDsllv
        | CpuInstructionIdentity::SpecialDsrlv
        | CpuInstructionIdentity::SpecialDsrav
        | CpuInstructionIdentity::SpecialAnd
        | CpuInstructionIdentity::SpecialOr
        | CpuInstructionIdentity::SpecialXor
        | CpuInstructionIdentity::SpecialNor
        | CpuInstructionIdentity::SpecialAddu
        | CpuInstructionIdentity::SpecialSubu
        | CpuInstructionIdentity::SpecialDaddu
        | CpuInstructionIdentity::SpecialDsubu
        | CpuInstructionIdentity::SpecialSlt
        | CpuInstructionIdentity::SpecialSltu
        | CpuInstructionIdentity::SpecialAdd
        | CpuInstructionIdentity::SpecialSub
        | CpuInstructionIdentity::SpecialDadd
        | CpuInstructionIdentity::SpecialDsub => BootstrapGprAccess {
            source_a: Some(fields.rs()),
            source_b: Some(fields.rt()),
            destination: Some(fields.rd()),
        },
        CpuInstructionIdentity::SpecialMthi | CpuInstructionIdentity::SpecialMtlo => {
            BootstrapGprAccess { source_a: Some(fields.rs()), source_b: None, destination: None }
        },
        CpuInstructionIdentity::SpecialMfhi | CpuInstructionIdentity::SpecialMflo => {
            BootstrapGprAccess { source_a: None, source_b: None, destination: Some(fields.rd()) }
        },
        CpuInstructionIdentity::Addi
        | CpuInstructionIdentity::Daddi
        | CpuInstructionIdentity::Addiu
        | CpuInstructionIdentity::Daddiu
        | CpuInstructionIdentity::Slti
        | CpuInstructionIdentity::Sltiu
        | CpuInstructionIdentity::Andi
        | CpuInstructionIdentity::Ori
        | CpuInstructionIdentity::Xori
        | CpuInstructionIdentity::Lw => BootstrapGprAccess {
            source_a: Some(fields.rs()),
            source_b: None,
            destination: Some(fields.rt()),
        },
        CpuInstructionIdentity::Lui => BootstrapGprAccess {
            source_a: None,
            source_b: None,
            destination: Some(fields.rt()),
        },
        _ => BootstrapGprAccess { source_a: None, source_b: None, destination: None },
    }
}

/// The record of one cartridge bootstrap: where the IPL3 span came from and went, the
/// control-flow pair, and where each general-purpose register's value came from.
#[derive(Debug, Clone, Copy, PartialEq, Eq)]
pub struct MachineCartridgeBootstrapState {
    source_layout: RomSourceLayout,
    cartridge_start_offset: u32,
    cartridge_end_offset_exclusive: u32,
    sp_dmem_start_offset: u32,
    sp_dmem_end_offset_exclusive: u32,
    execution_pc: CpuAddress,
    next_pc: CpuAddress,
    cpu_state_kind: MachineBootstrapCpuStateKind,
    pif_ipl2_profile: Option<PifIpl2Profile>,
    pif_ipl2_handoff_inputs: Option<MachinePifIpl2HandoffInputs>,
    cop0_status_source: MachineBootstrapCop0StatusSource,
    control_flow_source: MachineBootstrapControlFlowSource,
    gpr_sources: [MachineBootstrapGprSource; CPU_GPR_COUNT],
}

/// The abstract value of a [`MachineCartridgeBootstrapState`].
pub ghost struct CartridgeBootstrapStateView {
    pub source_layout: RomSourceLayout,
    pub cartridge_start_offset: u32,
    pub cartridge_end_offset_exclusive: u32,
    pub sp_dmem_start_offset: u32,
    pub sp_dmem_end_offset_exclusive: u32,
    pub execution_pc: CpuAddress,
    pub next_pc: CpuAddress,
    pub cpu_state_kind: MachineBootstrapCpuStateKind,
    pub pif_ipl2_profile: Option<PifIpl2Profile>,
    pub pif_ipl2_handoff_inputs: Option<MachinePifIpl2HandoffInputs>,
    pub cop0_status_source: MachineBootstrapCop0StatusSource,
    pub control_flow_source: MachineBootstrapControlFlowSource,
    pub gpr_sources: Seq<MachineBootstrapGprSource>,
}

impl View for MachineCartridgeBootstrapState {
    type V = CartridgeBootstrapStateView;

    closed spec fn view(&self) -> CartridgeBootstrapStateView {
        CartridgeBootstrapStateView {
            source_layout: self.source_layout,
            cartridge_start_offset: self.cartridge_start_offset,
            cartridge_end_offset_exclusive: self.cartridge_end_offset_exclusive,
            sp_dmem_start_offset: self.sp_dmem_start_offset,
            sp_dmem_end_offset_exclusive: self.sp_dmem_end_offset_exclusive,
            execution_pc: self.execution_pc,
            next_pc: self.next_pc,
            cpu_state_kind: self.cpu_state_kind,
            pif_ipl2_profile: self.pif_ipl2_profile,
            pif_ipl2_handoff_inputs: self.pif_ipl2_handoff_inputs,
            cop0_status_source: self.cop0_status_source,
            control_flow_source: self.control_flow_source,
            gpr_sources: self.gpr_sources@,
        }
    }
}

/// The source of register `index` in a source table; unknown past the last register.
pub open spec fn spec_gpr_source_or_unknown(
    gpr_sources: Seq<MachineBootstrapGprSource>,
    index: int,
) -> MachineBootstrapGprSource {
    if 0 <= index < CPU_GPR_COUNT {
        gpr_sources[index]
    } else {
        MachineBootstrapGprSource::UnknownPifProduced
    }
}

/// The refusal, if any, of an instruction that reads its source registers while the
/// bootstrap record says where each register came from: the first source register, then
/// the second, whose origin is unknown.
pub open spec fn spec_bootstrap_source_refusal(
    gpr_sources: Seq<MachineBootstrapGprSource>,
    cpu_address: CpuAddress,
    fields: CpuInstructionFields,
    identity: CpuInstructionIdentity,
) -> Option<MachineBootstrapCpuStateUnavailable> {
    let access = spec_bootstrap_gpr_access(fields, identity);
    if access.source_a is Some && spec_gpr_source_or_unknown(
        gpr_sources,
        access.source_a->0 as int,
    ) is UnknownPifProduced {
        Some(
            MachineBootstrapCpuStateUnavailable {
                cpu_address,
                identity,
                register_index: access.source_a->0,
                source: MachineBootstrapGprSource::UnknownPifProduced,
            },
        )
    } else if access.source_b is Some && spec_gpr_source_or_unknown(
        gpr_sources,
        access.source_b->0 as int,
    ) is UnknownPifProduced {
        Some(
            MachineBootstrapCpuStateUnavailable {
                cpu_address,
                identity,
                register_index: access.source_b->0,
                source: MachineBootstrapGprSource::UnknownPifProduced,
            },
        )
    } else {
        None
    }
}

/// The source table after an instruction commits: its destination register, if any, now
/// holds a known instruction result (register 0 stays the architectural zero).
pub open spec fn spec_record_bootstrap_destination(
    gpr_sources: Seq<MachineBootstrapGprSource>,
    cpu_address: CpuAddress,
    fields: CpuInstructionFields,
    identity: CpuInstructionIdentity,
) -> Seq<MachineBootstrapGprSource> {
    let access = spec_bootstrap_gpr_access(fields, identity);
    match access.destination {
        None => gpr_sources,
        Some(destination) => if destination == 0 {
            gpr_sources.update(0, MachineBootstrapGprSource::ArchitecturalZero)
        } else {
            gpr_sources.update(
                destination as int,
                MachineBootstrapGprSource::KnownInstructionResult {
                    execution_address: cpu_address,
                    identity,
                    source_gpr_a: access.source_a,
                    source_gpr_b: access.source_b,
                },
            )
        },
    }
}

impl MachineCartridgeBootstrapState {
    /// The fixed span layout every bootstrap record carries.
    #[verifier::type_invariant]
    closed spec fn spans_are_fixed(self) -> bool {
        &&& self.cartridge_start_offset == CARTRIDGE_CANDIDATE_IPL3_START_OFFSET
        &&& self.cartridge_end_offset_exclusive == CARTRIDGE_CANDIDATE_IPL3_END_OFFSET_EXCLUSIVE
        &&& self.sp_dmem_start_offset == MACHINE_CARTRIDGE_BOOTSTRAP_SP_DMEM_START_OFFSET
        &&& self.sp_dmem_end_offset_exclusive
            == MACHINE_CARTRIDGE_BOOTSTRAP_SP_DMEM_END_OFFSET_EXCLUSIVE
    }

    pub fn source_layout(self) -> (r: RomSourceLayout)
        ensures
            r == self@.source_layout,
    {
        self.source_layout
    }

    pub fn cartridge_start_offset(self) -> (r: u32)
        ensures
            r == self@.cartridge_start_offset,
            r == CARTRIDGE_CANDIDATE_IPL3_START_OFFSET,
    {
        proof {
            use_type_invariant(self);
        }
        self.cartridge_start_offset
    }

    pub fn cartridge_end_offset_exclusive(self) -> (r: u32)
        ensures
            r == self@.cartridge_end_offset_exclusive,
            r == CARTRIDGE_CANDIDATE_IPL3_END_OFFSET_EXCLUSIVE,
    {
        proof {
            use_type_invariant(self);
        }
        self.cartridge_end_offset_exclusive
    }

    pub fn sp_dmem_start_offset(self) -> (r: u32)
        ensures
            r == self@.sp_dmem_start_offset,
            r == MACHINE_CARTRIDGE_BOOTSTRAP_SP_DMEM_START_OFFSET,
    {
        proof {
            use_type_invariant(self);
        }
        self.sp_dmem_start_offset
    }

    pub fn sp_dmem_end_offset_exclusive(self) -> (r: u32)
        ensures
            r == self@.sp_dmem_end_offset_exclusive,
            r == MACHINE_CARTRIDGE_BOOTSTRAP_SP_DMEM_END_OFFSET_EXCLUSIVE,
    {
        proof {
            use_type_invariant(self);
        }
        self.sp_dmem_end_offset_exclusive
    }

    pub fn execution_pc(self) -> (r: CpuAddress)
        ensures
            r == self@.execution_pc,
    {
        self.execution_pc
    }

    pub fn next_pc(self) -> (r: CpuAddress)
        ensures
            r == self@.next_pc,
    {
        self.next_pc
    }

    pub fn cpu_state_kind(self) -> (r: MachineBootstrapCpuStateKind)
        ensures
            r == self@.cpu_state_kind,
    {
        self.cpu_state_kind
    }

    pub fn pif_ipl2_profile(self) -> (r: Option<PifIpl2Profile>)
        ensures
            r == self@.pif_ipl2_profile,
    {
        self.pif_ipl2_profile
    }

    pub fn pif_ipl2_handoff_inputs(self) -> (r: Option<MachinePifIpl2HandoffInputs>)
        ensures
            r == self@.pif_ipl2_handoff_inputs,
    {
        self.pif_ipl2_handoff_inputs
    }

    pub fn cop0_status_source(self) -> (r: MachineBootstrapCop0StatusSource)
        ensures
            r == self@.cop0_status_source,
    {
        self.cop0_status_source
    }

    pub fn control_flow_source(self) -> (r: MachineBootstrapControlFlowSource)
        ensures
            r == self@.control_flow_source,
    {
        self.control_flow_source
    }

    /// Bootstrap never represents the whole CPU state that PIF code leaves behind.
    pub fn has_unrepresented_pif_cpu_state(self) -> (r: bool)
        ensures
            r,
    {
        true
    }

    /// Where general-purpose register `index` came from; `None` past the last register.
    pub fn gpr_source(self, index: usize) -> (r: Option<MachineBootstrapGprSource>)
        ensures
            index < CPU_GPR_COUNT ==> r == Some(self@.gpr_sources[index as int]),
            index >= CPU_GPR_COUNT ==> r is None,
    {
        if index < CPU_GPR_COUNT {
            Some(self.gpr_sources[index])
        } else {
            None
        }
    }

    /// Whether general-purpose register `index` has a known source; `None` past the last
    /// register.
    pub fn gpr_is_known(self, index: usize) -> (r: Option<bool>)
        ensures
            index < CPU_GPR_COUNT ==> r == Some(
                !(self@.gpr_sources[index as int] is UnknownPifProduced),
            ),
            index >= CPU_GPR_COUNT ==> r is None,
    {
        match self.gpr_source(index) {
            Some(source) => Some(source.is_known()),
            None => None,
        }
    }

    /// Whether the whole word at SP DMEM `offset` lies in the bootstrap span.
    pub fn contains_sp_dmem_word(self, offset: u32) -> (r: bool)
        ensures
            r == (self@.sp_dmem_start_offset <= offset && offset + 4
                <= self@.sp_dmem_end_offset_exclusive),
    {
        let start = self.sp_dmem_start_offset;
        let end = match offset.checked_add(4) {
            Some(end) => end,
            None => {
                return false;
            },
        };
        offset >= start && end <= self.sp_dmem_end_offset_exclusive
    }

    /// The cartridge offset whose byte was copied to SP DMEM `offset`.
    pub fn cartridge_offset_for_sp_dmem(self, offset: u32) -> (r: u32)
        requires
            self@.sp_dmem_start_offset <= offset && offset + 4 <= self@.sp_dmem_end_offset_exclusive,
        ensures
            r == self@.cartridge_start_offset + (offset - self@.sp_dmem_start_offset),
    {
        proof {
            use_type_invariant(self);
        }
        self.cartridge_start_offset + (offset - self.sp_dmem_start_offset)
    }

    /// Refuses an instruction that reads a general-purpose register whose boot value is
    /// unknown.
    pub fn require_known_bootstrap_gpr_sources(
        self,
        cpu_address: CpuAddress,
        fields: CpuInstructionFields,
        identity: CpuInstructionIdentity,
    ) -> (r: Result<(), MachineBootstrapCpuStateUnavailable>)
        ensures
            r is Ok <==> spec_bootstrap_source_refusal(
                self@.gpr_sources,
                cpu_address,
                fields,
                identity,
            ) is None,
            r matches Err(e) ==> spec_bootstrap_source_refusal(
                self@.gpr_sources,
                cpu_address,
                fields,
                identity,
            ) == Some(e),
    {
        let access = bootstrap_gpr_access(fields, identity);
        let sources: [Option<u8>; 2] = [access.source_a, access.source_b];
        let mut slot: usize = 0;
        while slot < 2
            invariant
                sources@ == seq![access.source_a, access.source_b],
                access == spec_bootstrap_gpr_access(fields, identity),
                slot <= 2,
                slot > 0 ==> !(access.source_a is Some && spec_gpr_source_or_unknown(
                    self@.gpr_sources,
                    access.source_a->0 as int,
                ) is UnknownPifProduced),
                slot > 1 ==> !(access.source_b is Some && spec_gpr_source_or_unknown(
                    self@.gpr_sources,
                    access.source_b->0 as int,
                ) is UnknownPifProduced),
            decreases 2 - slot,
        {
            if let Some(register_index) = sources[slot] {
                let source = match self.gpr_source(register_index as usize) {
                    Some(source) => source,
                    None => MachineBootstrapGprSource::UnknownPifProduced,
                };
                if !source.is_known() {
                    return Err(
                        MachineBootstrapCpuStateUnavailable {
                            cpu_address,
                            identity,
                            register_index,
                            source,
                        },
                    );
                }
            }
            slot = slot + 1;
        }
        Ok(())
    }

    /// Records that the instruction at `cpu_address` wrote its destination register, which
    /// now holds a known instruction result.
    pub fn record_known_bootstrap_gpr_destination(
        &mut self,
        cpu_address: CpuAddress,
        fields: CpuInstructionFields,
        identity: CpuInstructionIdentity,
    )
        requires
            fields.wf(),
        ensures
            final(self)@ == (CartridgeBootstrapStateView {
                gpr_sources: spec_record_bootstrap_destination(
                    old(self)@.gpr_sources,
                    cpu_address,
                    fields,
                    identity,
                ),
                ..old(self)@
            }),
    {
        proof {
            use_type_invariant(&*self);
            fields.lemma_register_fields_bounded();
        }
        let access = bootstrap_gpr_access(fields, identity);
        let destination = match access.destination {
            Some(destination) => destination,
            None => {
                return;
            },
        };
        if destination == 0 {
            self.gpr_sources[0] = MachineBootstrapGprSource::ArchitecturalZero;
            return;
        }
        self.gpr_sources[destination as usize] =
            MachineBootstrapGprSource::KnownInstructionResult {
            execution_address: cpu_address,
            identity,
            source_gpr_a: access.source_a,
            source_gpr_b: access.source_b,
        };
    }
}

/// Everything a cartridge bootstrap installs: the bootstrap record, the replacement CPU,
/// and the IPL3 bytes to place in SP DMEM at the record's SP DMEM start offset.
pub struct MachineCartridgeBootstrapHandoff {
    pub state: MachineCartridgeBootstrapState,
    pub cpu: Cpu,
    pub sp_dmem_bytes: Vec<u8>,
}

/// The refusal, if any, of a cartridge bootstrap, checked in this order: a refused cold
/// x105 handoff plan, a PIF IPL2 profile without accepted firmware, and a cartridge shorter
/// than the IPL3 span.
pub open spec fn spec_cartridge_bootstrap_error(inputs: MachinePifBootInputs, cartridge_size: nat)
    -> Option<MachineCartridgeBootstrapError>
{
    match spec_cold_x105_coupled_handoff(inputs) {
        Err(error) => Some(error),
        Ok(_) => if inputs.profile is Some && !inputs.firmware_installed {
            Some(
                MachineCartridgeBootstrapError::PifIpl2ProfileRequiresFirmware {
                    profile: inputs.profile->0,
                },
            )
        } else if cartridge_size < CARTRIDGE_CANDIDATE_IPL3_END_OFFSET_EXCLUSIVE {
            Some(
                MachineCartridgeBootstrapError::CartridgeSourceRangeUnavailable {
                    required_end_offset_exclusive: CARTRIDGE_CANDIDATE_IPL3_END_OFFSET_EXCLUSIVE,
                    actual_size_bytes: cartridge_size as usize,
                },
            )
        } else {
            None
        },
    }
}

/// General-purpose register `index` after bootstrap: the restored PIF stack pointer, and
/// with a cold x105 handoff also its entry pointer, link and s3-s7 values; zero elsewhere.
pub open spec fn spec_bootstrap_gpr(plan: Option<ColdX105CoupledHandoffPlan>, index: int) -> u64 {
    if index == MACHINE_PIF_IPL2_HANDOFF_SP_GPR_INDEX {
        MACHINE_PIF_IPL2_HANDOFF_SP_VALUE
    } else {
        match plan {
            None => 0,
            Some(p) => if index == MACHINE_PIF_IPL2_HANDOFF_T3_GPR_INDEX {
                p.t3
            } else if index == MACHINE_PIF_IPL2_HANDOFF_RA_GPR_INDEX {
                p.ra
            } else if index == MACHINE_PIF_IPL2_HANDOFF_S3_GPR_INDEX {
                p.s3
            } else if index == MACHINE_PIF_IPL2_HANDOFF_S4_GPR_INDEX {
                p.s4
            } else if index == MACHINE_PIF_IPL2_HANDOFF_S5_GPR_INDEX {
                p.s5
            } else if index == MACHINE_PIF_IPL2_HANDOFF_S6_GPR_INDEX {
                p.s6
            } else if index == MACHINE_PIF_IPL2_HANDOFF_S7_GPR_INDEX {
                p.s7
            } else {
                0
            },
        }
    }
}

/// Where general-purpose register `index` comes from after bootstrap.
pub open spec fn spec_bootstrap_gpr_source(plan: Option<ColdX105CoupledHandoffPlan>, index: int)
    -> MachineBootstrapGprSource
{
    if index == 0 {
        MachineBootstrapGprSource::ArchitecturalZero
    } else if index == MACHINE_PIF_IPL2_HANDOFF_SP_GPR_INDEX {
        MachineBootstrapGprSource::PifIpl2RestoredStackPointer
    } else {
        match plan {
            None => MachineBootstrapGprSource::UnknownPifProduced,
            Some(p) => if index == MACHINE_PIF_IPL2_HANDOFF_T3_GPR_INDEX {
                MachineBootstrapGprSource::PifIpl2HandoffEntryPointer
            } else if index == MACHINE_PIF_IPL2_HANDOFF_RA_GPR_INDEX {
                MachineBootstrapGprSource::PifIpl2RetainedLink {
                    profile: p.profile,
                    link_instruction_address: CpuAddress(
                        MACHINE_PIF_IPL2_HANDOFF_NTSC_LINK_INSTRUCTION_ADDRESS,
                    ),
                }
            } else if index == MACHINE_PIF_IPL2_HANDOFF_S3_GPR_INDEX {
                MachineBootstrapGprSource::CartridgeBootMedium
            } else if index == MACHINE_PIF_IPL2_HANDOFF_S4_GPR_INDEX {
                MachineBootstrapGprSource::PifProfileTvType { profile: p.profile }
            } else if index == MACHINE_PIF_IPL2_HANDOFF_S5_GPR_INDEX {
                MachineBootstrapGprSource::ColdResetKind
            } else if index == MACHINE_PIF_IPL2_HANDOFF_S6_GPR_INDEX {
                MachineBootstrapGprSource::X105Seed
            } else if index == MACHINE_PIF_IPL2_HANDOFF_S7_GPR_INDEX {
                MachineBootstrapGprSource::PifVersionRegionalState {
                    profile: p.profile,
                    pif_version_bit: p.inputs.pif_version_bit,
                }
            } else {
                MachineBootstrapGprSource::UnknownPifProduced
            },
        }
    }
}

/// The CPU bootstrap leaves behind: a fresh CPU with the registers of
/// [`spec_bootstrap_gpr`], the cold-boot Status when there is a handoff, and the bootstrap
/// execution PC.
pub open spec fn spec_bootstrap_cpu(cpu: CpuState, plan: Option<ColdX105CoupledHandoffPlan>)
    -> bool
{
    &&& cpu.pc == MACHINE_CARTRIDGE_BOOTSTRAP_EXECUTION_PC
    &&& cpu.next_pc == MACHINE_CARTRIDGE_BOOTSTRAP_NEXT_PC
    &&& cpu.delay_slot_context is None
    &&& cpu.hi == 0
    &&& cpu.lo == 0
    &&& cpu.gprs.len() == CPU_GPR_COUNT
    &&& cpu.gpr_values() == Seq::new(32, |i: int| spec_bootstrap_gpr(plan, i))
    &&& (Cop0 { status: 0, ..cpu.cop0 }).spec_is_new()
    &&& cpu.cop0.status == match plan {
        Some(p) => p.cop0_status,
        None => 0,
    }
    &&& cpu.cop1.spec_is_new()
    &&& cpu.caches == spec_cold_primary_caches()
}

/// The bootstrap record for a cartridge of layout `source_layout`.
pub open spec fn spec_bootstrap_state(
    source_layout: RomSourceLayout,
    inputs: MachinePifBootInputs,
    plan: Option<ColdX105CoupledHandoffPlan>,
) -> CartridgeBootstrapStateView {
    CartridgeBootstrapStateView {
        source_layout,
        cartridge_start_offset: CARTRIDGE_CANDIDATE_IPL3_START_OFFSET,
        cartridge_end_offset_exclusive: CARTRIDGE_CANDIDATE_IPL3_END_OFFSET_EXCLUSIVE,
        sp_dmem_start_offset: MACHINE_CARTRIDGE_BOOTSTRAP_SP_DMEM_START_OFFSET,
        sp_dmem_end_offset_exclusive: MACHINE_CARTRIDGE_BOOTSTRAP_SP_DMEM_END_OFFSET_EXCLUSIVE,
        execution_pc: CpuAddress(MACHINE_CARTRIDGE_BOOTSTRAP_EXECUTION_PC),
        next_pc: CpuAddress(MACHINE_CARTRIDGE_BOOTSTRAP_NEXT_PC),
        cpu_state_kind: if plan is Some {
            MachineBootstrapCpuStateKind::CoupledColdX105NtscPinned
        } else {
            MachineBootstrapCpuStateKind::RepresentedResetSubset
        },
        pif_ipl2_profile: inputs.profile,
        pif_ipl2_handoff_inputs: match plan {
            Some(p) => Some(p.inputs),
            None => None,
        },
        cop0_status_source: if plan is Some {
            MachineBootstrapCop0StatusSource::PifIpl1ColdBootStatus
        } else {
            MachineBootstrapCop0StatusSource::UnknownPifProduced
        },
        control_flow_source: match plan {
            Some(p) => MachineBootstrapControlFlowSource::PifIpl2CompletedX105Transfer {
                profile: p.profile,
            },
            None => MachineBootstrapControlFlowSource::DirectCartridgeBootstrapStaging,
        },
        gpr_sources: Seq::new(32, |i: int| spec_bootstrap_gpr_source(plan, i)),
    }
}

/// Writes one bootstrap register of a CPU under construction.
fn stage_bootstrap_gpr(cpu: &mut Cpu, index: u8, value: u64) -> (r: Result<
    (),
    MachineCartridgeBootstrapError,
>)
    requires
        0 < index < CPU_GPR_COUNT,
        old(cpu)@.gprs.len() == CPU_GPR_COUNT,
    ensures
        r is Ok,
        final(cpu)@ == (CpuState {
            gprs: old(cpu)@.gprs.update(index as int, value),
            ..old(cpu)@
        }),
{
    match cpu.set_gpr(index as usize, value) {
        Ok(()) => Ok(()),
        Err(error) => Err(MachineCartridgeBootstrapError::CpuRegister(error)),
    }
}

/// Creates the machine's cartridge bootstrap state from a normalized cartridge.
///
/// The complete IPL3 source span is preflighted and read before anything is built. The
/// represented reset subset stages only the architectural zero and the restored PIF IPL2
/// stack pointer; a cold x105 handoff, when its inputs are all present, adds its entry
/// pointer, link, s3-s7 and the cold-boot Status. Every other PIF-produced register stays
/// explicitly unknown. The execution PC is staged last.
pub fn stage_cartridge_bootstrap(cartridge: &Cartridge, inputs: MachinePifBootInputs) -> (r: Result<
    MachineCartridgeBootstrapHandoff,
    MachineCartridgeBootstrapError,
>)
    ensures
        r is Err <==> spec_cartridge_bootstrap_error(inputs, cartridge.spec_image().len()) is Some,
        r matches Err(e) ==> spec_cartridge_bootstrap_error(inputs, cartridge.spec_image().len())
            == Some(e),
        r matches Ok(handoff) ==> {
            let plan = spec_cold_x105_coupled_handoff(inputs)->Ok_0;
            &&& handoff.state@ == spec_bootstrap_state(cartridge.spec_source_layout(), inputs, plan)
            &&& handoff.sp_dmem_bytes@ == cartridge.spec_image().subrange(
                CARTRIDGE_CANDIDATE_IPL3_START_OFFSET as int,
                CARTRIDGE_CANDIDATE_IPL3_END_OFFSET_EXCLUSIVE as int,
            )
            &&& spec_bootstrap_cpu(handoff.cpu@, plan)
        },
{
    let handoff_plan = match plan_cold_x105_coupled_handoff(inputs) {
        Ok(plan) => plan,
        Err(error) => {
            return Err(error);
        },
    };
    if let Some(profile) = inputs.profile {
        if !inputs.firmware_installed {
            return Err(MachineCartridgeBootstrapError::PifIpl2ProfileRequiresFirmware { profile });
        }
    }
    let required_end = CARTRIDGE_CANDIDATE_IPL3_END_OFFSET_EXCLUSIVE;
    if cartridge.size_bytes() < required_end as usize {
        return Err(
            MachineCartridgeBootstrapError::CartridgeSourceRangeUnavailable {
                required_end_offset_exclusive: required_end,
                actual_size_bytes: cartridge.size_bytes(),
            },
        );
    }

    let byte_count: usize = CARTRIDGE_CANDIDATE_IPL3_BYTE_COUNT as usize;
    let mut bootstrap_bytes: Vec<u8> = Vec::with_capacity(byte_count);
    let mut index: usize = 0;
    while index < byte_count
        invariant
            byte_count == CARTRIDGE_CANDIDATE_IPL3_BYTE_COUNT,
            cartridge.spec_image().len() >= CARTRIDGE_CANDIDATE_IPL3_END_OFFSET_EXCLUSIVE,
            index <= byte_count,
            bootstrap_bytes@.len() == index,
            forall|i: int|
                0 <= i < index ==> bootstrap_bytes@[i] == cartridge.spec_image()[
                    CARTRIDGE_CANDIDATE_IPL3_START_OFFSET + i],
        decreases byte_count - index,
    {
        let cartridge_offset = CARTRIDGE_CANDIDATE_IPL3_START_OFFSET + index as u32;
        match cartridge.read_u8(cartridge_offset) {
            Ok(byte) => bootstrap_bytes.push(byte),
            Err(error) => {
                return Err(MachineCartridgeBootstrapError::CartridgeRead(error));
            },
        }
        index = index + 1;
    }
    assert(bootstrap_bytes@ =~= cartridge.spec_image().subrange(
        CARTRIDGE_CANDIDATE_IPL3_START_OFFSET as int,
        CARTRIDGE_CANDIDATE_IPL3_END_OFFSET_EXCLUSIVE as int,
    ));

    let mut cpu = Cpu::new();
    proof {
        cpu.lemma_gpr_count();
    }
    let sp_value = match handoff_plan {
        Some(plan) => plan.sp,
        None => MACHINE_PIF_IPL2_HANDOFF_SP_VALUE,
    };
    stage_bootstrap_gpr(&mut cpu, MACHINE_PIF_IPL2_HANDOFF_SP_GPR_INDEX, sp_value)?;
    if let Some(plan) = handoff_plan {
        stage_bootstrap_gpr(&mut cpu, MACHINE_PIF_IPL2_HANDOFF_T3_GPR_INDEX, plan.t3)?;
        stage_bootstrap_gpr(&mut cpu, MACHINE_PIF_IPL2_HANDOFF_RA_GPR_INDEX, plan.ra)?;
        stage_bootstrap_gpr(&mut cpu, MACHINE_PIF_IPL2_HANDOFF_S3_GPR_INDEX, plan.s3)?;
        stage_bootstrap_gpr(&mut cpu, MACHINE_PIF_IPL2_HANDOFF_S4_GPR_INDEX, plan.s4)?;
        stage_bootstrap_gpr(&mut cpu, MACHINE_PIF_IPL2_HANDOFF_S5_GPR_INDEX, plan.s5)?;
        stage_bootstrap_gpr(&mut cpu, MACHINE_PIF_IPL2_HANDOFF_S6_GPR_INDEX, plan.s6)?;
        stage_bootstrap_gpr(&mut cpu, MACHINE_PIF_IPL2_HANDOFF_S7_GPR_INDEX, plan.s7)?;
        cpu.stage_cop0_status_for_bootstrap(plan.cop0_status);
    }
    cpu.stage_pc(MACHINE_CARTRIDGE_BOOTSTRAP_EXECUTION_PC);
    assert(cpu@.gpr_values() =~= Seq::new(32, |i: int| spec_bootstrap_gpr(handoff_plan, i)));

    let mut gpr_sources = [MachineBootstrapGprSource::UnknownPifProduced; CPU_GPR_COUNT];
    gpr_sources[0] = MachineBootstrapGprSource::ArchitecturalZero;
    gpr_sources[MACHINE_PIF_IPL2_HANDOFF_SP_GPR_INDEX as usize] =
        MachineBootstrapGprSource::PifIpl2RestoredStackPointer;
    if let Some(plan) = handoff_plan {
        gpr_sources[MACHINE_PIF_IPL2_HANDOFF_T3_GPR_INDEX as usize] =
            MachineBootstrapGprSource::PifIpl2HandoffEntryPointer;
        gpr_sources[MACHINE_PIF_IPL2_HANDOFF_RA_GPR_INDEX as usize] =
            MachineBootstrapGprSource::PifIpl2RetainedLink {
            profile: plan.profile,
            link_instruction_address: CpuAddress::new(
                MACHINE_PIF_IPL2_HANDOFF_NTSC_LINK_INSTRUCTION_ADDRESS,
            ),
        };
        gpr_sources[MACHINE_PIF_IPL2_HANDOFF_S3_GPR_INDEX as usize] =
            MachineBootstrapGprSource::CartridgeBootMedium;
        gpr_sources[MACHINE_PIF_IPL2_HANDOFF_S4_GPR_INDEX as usize] =
            MachineBootstrapGprSource::PifProfileTvType { profile: plan.profile };
        gpr_sources[MACHINE_PIF_IPL2_HANDOFF_S5_GPR_INDEX as usize] =
            MachineBootstrapGprSource::ColdResetKind;
        gpr_sources[MACHINE_PIF_IPL2_HANDOFF_S6_GPR_INDEX as usize] =
            MachineBootstrapGprSource::X105Seed;
        gpr_sources[MACHINE_PIF_IPL2_HANDOFF_S7_GPR_INDEX as usize] =
            MachineBootstrapGprSource::PifVersionRegionalState {
            profile: plan.profile,
            pif_version_bit: plan.inputs.pif_version_bit(),
        };
    }
    assert(gpr_sources@ =~= Seq::new(32, |i: int| spec_bootstrap_gpr_source(handoff_plan, i)));

    let (cpu_state_kind, cop0_status_source, control_flow_source, pif_ipl2_handoff_inputs) =
        match handoff_plan {
        Some(plan) => (
            MachineBootstrapCpuStateKind::CoupledColdX105NtscPinned,
            MachineBootstrapCop0StatusSource::PifIpl1ColdBootStatus,
            MachineBootstrapControlFlowSource::PifIpl2CompletedX105Transfer { profile: plan.profile },
            Some(plan.inputs),
        ),
        None => (
            MachineBootstrapCpuStateKind::RepresentedResetSubset,
            MachineBootstrapCop0StatusSource::UnknownPifProduced,
            MachineBootstrapControlFlowSource::DirectCartridgeBootstrapStaging,
            None,
        ),
    };
    let state = MachineCartridgeBootstrapState {
        source_layout: cartridge.source_layout(),
        cartridge_start_offset: CARTRIDGE_CANDIDATE_IPL3_START_OFFSET,
        cartridge_end_offset_exclusive: CARTRIDGE_CANDIDATE_IPL3_END_OFFSET_EXCLUSIVE,
        sp_dmem_start_offset: MACHINE_CARTRIDGE_BOOTSTRAP_SP_DMEM_START_OFFSET,
        sp_dmem_end_offset_exclusive: MACHINE_CARTRIDGE_BOOTSTRAP_SP_DMEM_END_OFFSET_EXCLUSIVE,
        execution_pc: CpuAddress::new(MACHINE_CARTRIDGE_BOOTSTRAP_EXECUTION_PC),
        next_pc: CpuAddress::new(MACHINE_CARTRIDGE_BOOTSTRAP_NEXT_PC),
        cpu_state_kind,
        pif_ipl2_profile: inputs.profile,
        pif_ipl2_handoff_inputs,
        cop0_status_source,
        control_flow_source,
        gpr_sources,
    };
    Ok(MachineCartridgeBootstrapHandoff { state, cpu, sp_dmem_bytes: bootstrap_bytes })
}

/// Once a bootstrap instruction has written its destination register, that register's
/// origin is known: a later instruction reading it is not refused on its account.
pub proof fn lemma_recorded_destination_is_known(
    gpr_sources: Seq<MachineBootstrapGprSource>,
    cpu_address: CpuAddress,
    fields: CpuInstructionFields,
    identity: CpuInstructionIdentity,
)
    requires
        gpr_sources.len() == CPU_GPR_COUNT,
        fields.wf(),
        spec_bootstrap_gpr_access(fields, identity).destination is Some,
    ensures
        ({
            let destination = spec_bootstrap_gpr_access(fields, identity).destination->0;
            let recorded = spec_record_bootstrap_destination(
                gpr_sources,
                cpu_address,
                fields,
                identity,
            );
            &&& recorded.len() == CPU_GPR_COUNT
            &&& !(spec_gpr_source_or_unknown(recorded, destination as int) is UnknownPifProduced)
        }),
{
    fields.lemma_register_fields_bounded();
}

/// Recording a destination changes the origin of that register only.
pub proof fn lemma_recording_keeps_other_sources(
    gpr_sources: Seq<MachineBootstrapGprSource>,
    cpu_address: CpuAddress,
    fields: CpuInstructionFields,
    identity: CpuInstructionIdentity,
    index: int,
)
    requires
        gpr_sources.len() == CPU_GPR_COUNT,
        fields.wf(),
        0 <= index < CPU_GPR_COUNT,
        spec_bootstrap_gpr_access(fields, identity).destination != Some(index as u8),
    ensures
        spec_record_bootstrap_destination(gpr_sources, cpu_address, fields, identity)[index]
            == gpr_sources[index],
{
    fields.lemma_register_fields_bounded();
}

/// The PIF version bit decides general-purpose register s7 and nothing else of a cold x105
/// bootstrap: two complete handoffs that differ only in the bit give the same registers
/// everywhere but s7, and s7 holds the bit.
pub proof fn lemma_version_bit_changes_only_s7(
    inputs: MachinePifBootInputs,
    other_bit: MachinePifVersionBit,
    index: int,
)
    requires
        spec_cold_x105_coupled_handoff(inputs) matches Ok(Some(_)),
        0 <= index < CPU_GPR_COUNT,
    ensures
        ({
            let other = MachinePifBootInputs { pif_version_bit: Some(other_bit), ..inputs };
            let plan = spec_cold_x105_coupled_handoff(inputs)->Ok_0;
            let other_plan = spec_cold_x105_coupled_handoff(other)->Ok_0;
            &&& other_plan is Some
            &&& spec_bootstrap_gpr(other_plan, MACHINE_PIF_IPL2_HANDOFF_S7_GPR_INDEX as int)
                == other_bit.spec_value() as u64
            &&& index != MACHINE_PIF_IPL2_HANDOFF_S7_GPR_INDEX ==> spec_bootstrap_gpr(
                other_plan,
                index,
            ) == spec_bootstrap_gpr(plan, index)
        }),
{
}

/// Where an instruction word fetched from SP DMEM came from.
#[derive(Debug, Clone, Copy, PartialEq, Eq, Structural)]
pub enum MachineSpDmemInstructionProvenance {
    CartridgeBootstrap { cartridge_offset: u32 },
    UnclassifiedMachineStorage,
}

/// Classifies an instruction word fetched from SP DMEM `offset`: a word inside the span the
/// current bootstrap copied came from the cartridge byte it was copied from; any other word,
/// or any word without a bootstrap, is unclassified machine storage.
pub fn classify_sp_dmem_instruction_provenance(
    bootstrap: Option<MachineCartridgeBootstrapState>,
    offset: u32,
) -> (r: MachineSpDmemInstructionProvenance)
    ensures
        r == (match bootstrap {
            Some(state) => if state@.sp_dmem_start_offset <= offset && offset + 4
                <= state@.sp_dmem_end_offset_exclusive {
                MachineSpDmemInstructionProvenance::CartridgeBootstrap {
                    cartridge_offset: (state@.cartridge_start_offset + (offset
                        - state@.sp_dmem_start_offset)) as u32,
                }
            } else {
                MachineSpDmemInstructionProvenance::UnclassifiedMachineStorage
            },
            None => MachineSpDmemInstructionProvenance::UnclassifiedMachineStorage,
        }),
{
    match bootstrap {
        Some(state) => {
            if state.contains_sp_dmem_word(offset) {
                MachineSpDmemInstructionProvenance::CartridgeBootstrap {
                    cartridge_offset: state.cartridge_offset_for_sp_dmem(offset),
                }
            } else {
                MachineSpDmemInstructionProvenance::UnclassifiedMachineStorage
            }
        },
        None => MachineSpDmemInstructionProvenance::UnclassifiedMachineStorage,
    }
}

/// The registers a bootstrap instruction reads and writes sit where the MIPS encoding puts
/// them in the instruction word: an immediate-form arithmetic, logical or compare
/// instruction, or LW, reads bits 25..21 and writes bits 20..16; LUI writes bits 20..16;
/// a three-register SPECIAL instruction reads bits 25..21 and 20..16 and writes bits
/// 15..11.
pub proof fn lemma_bootstrap_access_follows_encoding(
    fields: CpuInstructionFields,
    bits: u32,
    identity: CpuInstructionIdentity,
)
    requires
        decodes_from(fields, bits),
    ensures
        ({
            let access = spec_bootstrap_gpr_access(fields, identity);
            let bits_25_21 = (bits as int / 0x20_0000 % 32) as u8;
            let bits_20_16 = (bits as int / 0x1_0000 % 32) as u8;
            let bits_15_11 = (bits as int / 0x800 % 32) as u8;
            &&& (identity is Addi || identity is Daddi || identity is Addiu || identity is Daddiu
                || identity is Slti || identity is Sltiu || identity is Andi || identity is Ori
                || identity is Xori || identity is Lw) ==> access == (BootstrapGprAccess {
                source_a: Some(bits_25_21),
                source_b: None,
                destination: Some(bits_20_16),
            })
            &&& identity is Lui ==> access == (BootstrapGprAccess {
                source_a: None,
                source_b: None,
                destination: Some(bits_20_16),
            })
            &&& (identity is SpecialAdd || identity is SpecialAddu || identity is SpecialSub
                || identity is SpecialSubu || identity is SpecialAnd || identity is SpecialOr
                || identity is SpecialXor || identity is SpecialNor || identity is SpecialSlt
                || identity is SpecialSltu) ==> access == (BootstrapGprAccess {
                source_a: Some(bits_25_21),
                source_b: Some(bits_20_16),
                destination: Some(bits_15_11),
            })
        }),
{
}

/// After an immediate-form bootstrap instruction commits, the register named by bits
/// 20..16 of its word has a known origin, so a later instruction may read it.
pub proof fn lemma_immediate_destination_becomes_known(
    gpr_sources: Seq<MachineBootstrapGprSource>,
    cpu_address: CpuAddress,
    fields: CpuInstructionFields,
    bits: u32,
    identity: CpuInstructionIdentity,
)
    requires
        gpr_sources.len() == CPU_GPR_COUNT,
        fields.wf(),
        decodes_from(fields, bits),
        identity is Addi || identity is Daddi || identity is Addiu || identity is Daddiu
            || identity is Slti || identity is Sltiu || identity is Andi || identity is Ori
            || identity is Xori || identity is Lw || identity is Lui,
    ensures
        !(spec_gpr_source_or_unknown(
            spec_record_bootstrap_destination(gpr_sources, cpu_address, fields, identity),
            bits as int / 0x1_0000 % 32,
        ) is UnknownPifProduced),
{
    lemma_bootstrap_access_follows_encoding(fields, bits, identity);
    lemma_recorded_destination_is_known(gpr_sources, cpu_address, fields, identity);
}

} // verus!
