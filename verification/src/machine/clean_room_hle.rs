use crate::bytes::{read_be_u32, spec_be_u32};
use crate::cartridge::metadata::CartridgePiDomain1Timing;
use crate::cartridge::byte_order::RomSourceLayout;
use crate::cartridge::{Cartridge, CartridgeReadError};
use crate::cpu::address::CpuAddress;
use crate::cpu::cache::spec_cold_primary_caches;
use crate::cpu::cop0::Cop0;
use crate::cpu::cop1::{Cop1, MachineCop1Fcr31Source, MachineCop1Fcr31State};
use crate::cpu::execution::{sign_extend_u32_to_cpu_value, spec_sext32};
use crate::cpu::registers::CpuRegisterIndexError;
use crate::cpu::scalars::{sequential_instruction_address, spec_sequential_instruction_address};
use crate::cpu::{Cpu, CpuState, CPU_GPR_COUNT};
use crate::machine::cartridge_bootstrap::{
    MachineBootstrapCop0StatusSource, MachineBootstrapCpuStateKind, MachineBootstrapGprSource,
    MachinePifBootInputs,
};
use crate::rdram::RDRAM_SIZE_BYTES;
use crate::text::{push_decimal, push_hex_digits, push_str, spec_decimal, spec_hex_digits};
use vstd::prelude::*;

verus! {

/// First cartridge byte of the payload that the clean-room handoff copies to RDRAM.
pub const MACHINE_CLEAN_ROOM_CARTRIDGE_SOURCE_START_OFFSET: u32 = 0x0000_1000;

/// Length of the copied payload: one MiB.
pub const MACHINE_CLEAN_ROOM_CARTRIDGE_BYTE_COUNT: u32 = 0x0010_0000;

/// One past the last cartridge byte of the payload.
pub const MACHINE_CLEAN_ROOM_CARTRIDGE_SOURCE_END_OFFSET_EXCLUSIVE: u32 =
    MACHINE_CLEAN_ROOM_CARTRIDGE_SOURCE_START_OFFSET + MACHINE_CLEAN_ROOM_CARTRIDGE_BYTE_COUNT;

/// First cartridge byte of the side data folded into the payload checksum.
pub const MACHINE_CLEAN_ROOM_SIDE_DATA_START_OFFSET: u32 = 0x0000_0750;

/// Length of the side data.
pub const MACHINE_CLEAN_ROOM_SIDE_DATA_BYTE_COUNT: usize = 0x100;

/// The x105 seed of the pinned NTSC profile.
pub const MACHINE_CLEAN_ROOM_NTSC_X105_SEED: u32 = 0x91;

/// The multiplier the x105 seed is scaled by to give the initial checksum and HI/LO.
pub const MACHINE_CLEAN_ROOM_X105_MULTIPLIER: u32 = 0x5d58_8b65;

/// COP0 Status after the handoff.
pub const MACHINE_CLEAN_ROOM_COP0_STATUS: u32 = 0x3400_0000;

/// COP0 PageMask after the handoff.
pub const MACHINE_CLEAN_ROOM_COP0_PAGE_MASK: u32 = 0;

/// A public, firmware-free boot profile.
#[derive(Debug, Clone, Copy, PartialEq, Eq, Structural)]
pub enum MachineCleanRoomBootProfile {
    NtscX105Pinned,
}

impl MachineCleanRoomBootProfile {
    pub open spec fn spec_name(self) -> Seq<char> {
        match self {
            MachineCleanRoomBootProfile::NtscX105Pinned => "ntsc-x105-pinned"@,
        }
    }

    pub fn name(self) -> (r: &'static str)
        ensures
            r@ == self.spec_name(),
    {
        match self {
            MachineCleanRoomBootProfile::NtscX105Pinned => "ntsc-x105-pinned",
        }
    }
}

/// How a machine was brought to its first cartridge instruction.
#[derive(Debug, Clone, Copy, PartialEq, Eq, Structural)]
pub enum MachineBootSource {
    CleanRoomHle { profile: MachineCleanRoomBootProfile },
    ExplicitPifFirmware,
    PublicSyntheticProof,
}

/// The record of one clean-room cartridge-entry handoff.
#[derive(Debug, Clone, Copy, PartialEq, Eq)]
pub struct MachineCleanRoomHleState {
    profile: MachineCleanRoomBootProfile,
    source_layout: RomSourceLayout,
    cartridge_start_offset: u32,
    cartridge_end_offset_exclusive: u32,
    rdram_start_offset: u32,
    rdram_end_offset_exclusive: u32,
    execution_pc: CpuAddress,
    next_pc: CpuAddress,
    cpu_state_kind: MachineBootstrapCpuStateKind,
    cop0_status_source: MachineBootstrapCop0StatusSource,
    gpr_sources: [MachineBootstrapGprSource; CPU_GPR_COUNT],
}

/// The abstract value of a [`MachineCleanRoomHleState`].
pub ghost struct CleanRoomHleStateView {
    pub profile: MachineCleanRoomBootProfile,
    pub source_layout: RomSourceLayout,
    pub cartridge_start_offset: u32,
    pub cartridge_end_offset_exclusive: u32,
    pub rdram_start_offset: u32,
    pub rdram_end_offset_exclusive: u32,
    pub execution_pc: CpuAddress,
    pub next_pc: CpuAddress,
    pub cpu_state_kind: MachineBootstrapCpuStateKind,
    pub cop0_status_source: MachineBootstrapCop0StatusSource,
    pub gpr_sources: Seq<MachineBootstrapGprSource>,
}

impl View for MachineCleanRoomHleState {
    type V = CleanRoomHleStateView;

    closed spec fn view(&self) -> CleanRoomHleStateView {
        CleanRoomHleStateView {
            profile: self.profile,
            source_layout: self.source_layout,
            cartridge_start_offset: self.cartridge_start_offset,
            cartridge_end_offset_exclusive: self.cartridge_end_offset_exclusive,
            rdram_start_offset: self.rdram_start_offset,
            rdram_end_offset_exclusive: self.rdram_end_offset_exclusive,
            execution_pc: self.execution_pc,
            next_pc: self.next_pc,
            cpu_state_kind: self.cpu_state_kind,
            cop0_status_source: self.cop0_status_source,
            gpr_sources: self.gpr_sources@,
        }
    }
}

impl MachineCleanRoomHleState {
    /// The source-register table has one entry per general-purpose register.
    pub proof fn lemma_gpr_source_count(&self)
        ensures
            self@.gpr_sources.len() == CPU_GPR_COUNT,
    {
    }

    pub fn profile(self) -> (r: MachineCleanRoomBootProfile)
        ensures
            r == self@.profile,
    {
        self.profile
    }

    pub fn source_layout(self) -> (r: RomSourceLayout)
        ensures
            r == self@.source_layout,
    {
        self.source_layout
    }

    pub fn cartridge_start_offset(self) -> (r: u32)
        ensures
            r == self@.cartridge_start_offset,
    {
        self.cartridge_start_offset
    }

    pub fn cartridge_end_offset_exclusive(self) -> (r: u32)
        ensures
            r == self@.cartridge_end_offset_exclusive,
    {
        self.cartridge_end_offset_exclusive
    }

    pub fn rdram_start_offset(self) -> (r: u32)
        ensures
            r == self@.rdram_start_offset,
    {
        self.rdram_start_offset
    }

    pub fn rdram_end_offset_exclusive(self) -> (r: u32)
        ensures
            r == self@.rdram_end_offset_exclusive,
    {
        self.rdram_end_offset_exclusive
    }

    pub fn execution_pc(self) -> (r: CpuAddress)
        ensures
            r == self@.execution_pc,
    {
        self.execution_pc
    }

    pub fn next_pc(self) -> (r: CpuAddress)
        ensures
            r == self@.next_pc,
    {
        self.next_pc
    }

    pub fn cpu_state_kind(self) -> (r: MachineBootstrapCpuStateKind)
        ensures
            r == self@.cpu_state_kind,
    {
        self.cpu_state_kind
    }

    pub fn cop0_status_source(self) -> (r: MachineBootstrapCop0StatusSource)
        ensures
            r == self@.cop0_status_source,
    {
        self.cop0_status_source
    }

    /// Where general-purpose register `index` came from; `None` past the last register.
    pub fn gpr_source(self, index: usize) -> (r: Option<MachineBootstrapGprSource>)
        ensures
            index < CPU_GPR_COUNT ==> r == Some(self@.gpr_sources[index as int]),
            index >= CPU_GPR_COUNT ==> r is None,
    {
        if index < CPU_GPR_COUNT {
            Some(self.gpr_sources[index])
        } else {
            None
        }
    }

    /// Whether general-purpose register `index` has a known source; `None` past the last
    /// register.
    pub fn gpr_is_known(self, index: usize) -> (r: Option<bool>)
        ensures
            index < CPU_GPR_COUNT ==> r == Some(
                !(self@.gpr_sources[index as int] is UnknownPifProduced),
            ),
            index >= CPU_GPR_COUNT ==> r is None,
    {
        match self.gpr_source(index) {
            Some(source) => Some(source.is_known()),
            None => None,
        }
    }

    /// Records the source of one general-purpose register; register 0 always stays the
    /// architectural zero.
    pub fn record_gpr_source(&mut self, register_index: u8, source: MachineBootstrapGprSource)
        requires
            register_index < CPU_GPR_COUNT,
        ensures
            final(self)@ == (CleanRoomHleStateView {
                gpr_sources: old(self)@.gpr_sources.update(
                    register_index as int,
                    if register_index == 0 {
                        MachineBootstrapGprSource::ArchitecturalZero
                    } else {
                        source
                    },
                ),
                ..old(self)@
            }),
    {
        if register_index == 0 {
            self.gpr_sources[0] = MachineBootstrapGprSource::ArchitecturalZero;
        } else {
            self.gpr_sources[register_index as usize] = source;
        }
    }
}

/// Why a clean-room cartridge-entry handoff is refused.
#[derive(Debug, Clone, PartialEq, Eq)]
pub enum MachineCleanRoomHleError {
    ConflictingPifBootInputs,
    CartridgeSourceRangeUnavailable { required_end_offset_exclusive: u32, actual_size_bytes: usize },
    CartridgeRead(CartridgeReadError),
    UnsupportedEntryAddress { entry_address: u32 },
    RdramDestinationRangeUnavailable { start_offset: u32, byte_count: u32 },
    CpuRegister(CpuRegisterIndexError),
}

impl MachineCleanRoomHleError {
    /// The error message, as a sequence of characters.
    pub open spec fn spec_message(self) -> Seq<char> {
        match self {
            MachineCleanRoomHleError::ConflictingPifBootInputs => "clean-room cartridge-entry staging rejects installed PIF boot inputs"@,
            MachineCleanRoomHleError::CartridgeSourceRangeUnavailable {
                required_end_offset_exclusive,
                actual_size_bytes,
            } => "clean-room cartridge source range unavailable: required_end="@ + spec_decimal(
                required_end_offset_exclusive as nat,
            ) + " actual_size="@ + spec_decimal(actual_size_bytes as nat),
            MachineCleanRoomHleError::CartridgeRead(error) => "clean-room cartridge source read rejected: "@
                + error.spec_message(),
            MachineCleanRoomHleError::UnsupportedEntryAddress { entry_address } => "clean-room cartridge entry address unsupported by pinned profile: address=0x"@
                + spec_hex_digits(entry_address as nat, 8),
            MachineCleanRoomHleError::RdramDestinationRangeUnavailable {
                start_offset,
                byte_count,
            } => "clean-room RDRAM destination unavailable: start="@ + spec_decimal(
                start_offset as nat,
            ) + " width="@ + spec_decimal(byte_count as nat),
            MachineCleanRoomHleError::CpuRegister(error) => "clean-room CPU register staging rejected: "@
                + error.spec_message(),
        }
    }

    /// The error message.
    pub fn to_string(&self) -> (r: String)
        ensures
            r@ == self.spec_message(),
    {
        let mut s = String::new();
        match self {
            MachineCleanRoomHleError::ConflictingPifBootInputs => {
                push_str(
                    &mut s,
                    "clean-room cartridge-entry staging rejects installed PIF boot inputs",
                );
            },
            MachineCleanRoomHleError::CartridgeSourceRangeUnavailable {
                required_end_offset_exclusive,
                actual_size_bytes,
            } => {
                push_str(&mut s, "clean-room cartridge source range unavailable: required_end=");
                push_decimal(&mut s, *required_end_offset_exclusive as u64);
                push_str(&mut s, " actual_size=");
                push_decimal(&mut s, *actual_size_bytes as u64);
            },
            MachineCleanRoomHleError::CartridgeRead(error) => {
                push_str(&mut s, "clean-room cartridge source read rejected: ");
                let inner = error.to_string();
                push_str(&mut s, inner.as_str());
            },
            MachineCleanRoomHleError::UnsupportedEntryAddress { entry_address } => {
                push_str(
                    &mut s,
                    "clean-room cartridge entry address unsupported by pinned profile: address=0x",
                );
                push_hex_digits(&mut s, *entry_address as u64, 8);
            },
            MachineCleanRoomHleError::RdramDestinationRangeUnavailable {
                start_offset,
                byte_count,
            } => {
                push_str(&mut s, "clean-room RDRAM destination unavailable: start=");
                push_decimal(&mut s, *start_offset as u64);
                push_str(&mut s, " width=");
                push_decimal(&mut s, *byte_count as u64);
            },
            MachineCleanRoomHleError::CpuRegister(error) => {
                push_str(&mut s, "clean-room CPU register staging rejected: ");
                let inner = error.to_string();
                push_str(&mut s, inner.as_str());
            },
        }
        s
    }
}

/// The running values of the payload checksum after some number of words.
#[derive(Debug, Clone, Copy, PartialEq, Eq, Structural)]
pub struct CleanRoomChecksumState {
    pub last_word: u32,
    pub last_rotate: u32,
    pub sum: u32,
    pub carry: u32,
    pub conditional: u32,
    pub side_sum: u32,
    pub xor: u32,
    pub rotate_sum: u32,
}

/// `a + b` modulo 2^32.
pub open spec fn spec_wrapping_add_u32(a: u32, b: u32) -> u32 {
    ((a as int + b as int) % 0x1_0000_0000) as u32
}

/// `word` rotated left by `amount` bits, `amount < 32`.
pub open spec fn spec_rotate_left_u32(word: u32, amount: u32) -> u32 {
    if amount == 0 {
        word
    } else {
        (word << amount) | (word >> ((32 - amount) as u32))
    }
}

/// The checksum before any word: every accumulator holds `initial`.
pub open spec fn spec_clean_room_checksum_initial(initial: u32) -> CleanRoomChecksumState {
    CleanRoomChecksumState {
        last_word: 0,
        last_rotate: 0,
        sum: initial,
        carry: initial,
        conditional: initial,
        side_sum: initial,
        xor: initial,
        rotate_sum: initial,
    }
}

/// One checksum step over payload word `word`, paired with side-data word `side_word`.
pub open spec fn spec_clean_room_checksum_step(
    s: CleanRoomChecksumState,
    word: u32,
    side_word: u32,
) -> CleanRoomChecksumState {
    let sum = spec_wrapping_add_u32(s.sum, word);
    let rotated = spec_rotate_left_u32(word, word % 32);
    CleanRoomChecksumState {
        last_word: word,
        last_rotate: rotated,
        sum,
        carry: if s.sum as int + word as int >= 0x1_0000_0000 {
            spec_wrapping_add_u32(s.carry, 1)
        } else {
            s.carry
        },
        conditional: if s.conditional < word {
            s.conditional ^ (sum ^ word)
        } else {
            s.conditional ^ rotated
        },
        side_sum: spec_wrapping_add_u32(s.side_sum, word ^ side_word),
        xor: s.xor ^ word,
        rotate_sum: spec_wrapping_add_u32(s.rotate_sum, rotated),
    }
}

/// The checksum after the first `word_count` big-endian payload words; word `i` is paired
/// with the side-data word at byte `4 * i` modulo 256.
pub open spec fn spec_clean_room_checksum(
    payload: Seq<u8>,
    initial: u32,
    side_data: Seq<u8>,
    word_count: nat,
) -> CleanRoomChecksumState
    decreases word_count,
{
    if word_count == 0 {
        spec_clean_room_checksum_initial(initial)
    } else {
        let i = word_count - 1;
        spec_clean_room_checksum_step(
            spec_clean_room_checksum(payload, initial, side_data, i as nat),
            spec_be_u32(payload, 4 * i),
            spec_be_u32(side_data, (4 * i) % 256),
        )
    }
}

/// The x105 seed scaled by the multiplier, as a 64-bit product.
pub open spec fn spec_clean_room_x105_product() -> int {
    MACHINE_CLEAN_ROOM_NTSC_X105_SEED as int * MACHINE_CLEAN_ROOM_X105_MULTIPLIER as int
}

/// The initial value of every checksum accumulator: the low word of the product, plus one.
pub open spec fn spec_clean_room_checksum_seed() -> u32 {
    ((spec_clean_room_x105_product() % 0x1_0000_0000 + 1) % 0x1_0000_0000) as u32
}

/// HI after the handoff: the high word of the product.
pub open spec fn spec_clean_room_hi() -> u64 {
    (spec_clean_room_x105_product() / 0x1_0000_0000) as u64
}

/// LO after the handoff: the low word of the product, sign-extended.
pub open spec fn spec_clean_room_lo() -> u64 {
    spec_sext32((spec_clean_room_x105_product() % 0x1_0000_0000) as u32)
}

/// The checksum over the whole one-MiB payload.
pub open spec fn spec_clean_room_payload_checksum(payload: Seq<u8>, side_data: Seq<u8>)
    -> CleanRoomChecksumState
{
    spec_clean_room_checksum(
        payload,
        spec_clean_room_checksum_seed(),
        side_data,
        (MACHINE_CLEAN_ROOM_CARTRIDGE_BYTE_COUNT / 4) as nat,
    )
}

/// The general-purpose registers after the handoff, from the entry address and the
/// payload checksum.
pub open spec fn spec_clean_room_gprs(entry_address: u32, c: CleanRoomChecksumState) -> Seq<u64> {
    seq![
        0u64,
        0xffff_ffff_a460_0000u64,
        spec_sext32(c.last_word),
        (c.last_word % 32) as u64,
        c.last_rotate as u64,
        c.sum as u64,
        spec_sext32(c.conditional),
        spec_sext32(c.sum ^ c.carry ^ c.xor),
        0xffff_ffff_a400_2000u64,
        spec_sext32(entry_address),
        spec_sext32(c.carry),
        0xffff_ffff_b000_0000u64,
        spec_sext32(c.side_sum),
        0x20u64,
        spec_sext32(c.sum ^ c.carry),
        0xffff_ffff_a000_02ffu64,
        0x400u64,
        0xffff_ffff_a3f0_8000u64,
        0x0018_0000u64,
        0u64,
        1u64,
        0u64,
        0xffff_ffff_a000_0200u64,
        0u64,
        spec_sext32(c.rotate_sum ^ c.conditional),
        spec_sext32(c.xor),
        0xffff_ffff_a430_0000u64,
        1u64,
        8u64,
        0xffff_ffff_a400_1ff0u64,
        0xffff_ffff_a400_1f90u64,
        0xffff_ffff_a400_0324u64,
    ]
}

/// Where general-purpose register `index` comes from after the handoff.
pub open spec fn spec_clean_room_gpr_source(index: int) -> MachineBootstrapGprSource {
    if index == 0 {
        MachineBootstrapGprSource::ArchitecturalZero
    } else if index == 9 {
        MachineBootstrapGprSource::CleanRoomHleCartridgeEntry
    } else if index == 2 || index == 3 || index == 4 || index == 5 || index == 6 || index == 7
        || index == 10 || index == 12 || index == 14 || index == 24 || index == 25 {
        MachineBootstrapGprSource::CleanRoomHleCartridgePayload
    } else {
        MachineBootstrapGprSource::CleanRoomHlePublicProfile
    }
}

pub open spec fn spec_clean_room_gpr_sources() -> Seq<MachineBootstrapGprSource> {
    Seq::new(32, |i: int| spec_clean_room_gpr_source(i))
}

/// `word` rotated left by `amount` bits.
fn rotate_word_left(word: u32, amount: u32) -> (r: u32)
    requires
        amount < 32,
    ensures
        r == spec_rotate_left_u32(word, amount),
{
    if amount == 0 {
        word
    } else {
        (word << amount) | (word >> (32 - amount))
    }
}

/// One checksum step over payload word `word`, paired with side-data word `side_word`.
fn clean_room_checksum_step(state: CleanRoomChecksumState, word: u32, side_word: u32) -> (r:
    CleanRoomChecksumState)
    ensures
        r == spec_clean_room_checksum_step(state, word, side_word),
{
    let next_sum = state.sum.wrapping_add(word);
    let carry = if next_sum < state.sum {
        state.carry.wrapping_add(1)
    } else {
        state.carry
    };
    let rotated = rotate_word_left(word, word % 32);
    let conditional = if state.conditional < word {
        state.conditional ^ (next_sum ^ word)
    } else {
        state.conditional ^ rotated
    };
    CleanRoomChecksumState {
        last_word: word,
        last_rotate: rotated,
        sum: next_sum,
        carry,
        conditional,
        side_sum: state.side_sum.wrapping_add(word ^ side_word),
        xor: state.xor ^ word,
        rotate_sum: state.rotate_sum.wrapping_add(rotated),
    }
}

/// Folds every big-endian word of `payload` into the checksum started at `initial`.
fn clean_room_checksum_state(payload: &[u8], initial: u32, side_data: &[u8]) -> (r:
    CleanRoomChecksumState)
    requires
        payload@.len() == MACHINE_CLEAN_ROOM_CARTRIDGE_BYTE_COUNT,
        side_data@.len() == MACHINE_CLEAN_ROOM_SIDE_DATA_BYTE_COUNT,
    ensures
        r == spec_clean_room_checksum(payload@, initial, side_data@, (payload@.len() / 4) as nat),
{
    let word_count: usize = payload.len() / 4;
    let mut state = CleanRoomChecksumState {
        last_word: 0,
        last_rotate: 0,
        sum: initial,
        carry: initial,
        conditional: initial,
        side_sum: initial,
        xor: initial,
        rotate_sum: initial,
    };
    let mut index: usize = 0;
    while index < word_count
        invariant
            payload@.len() == MACHINE_CLEAN_ROOM_CARTRIDGE_BYTE_COUNT,
            side_data@.len() == MACHINE_CLEAN_ROOM_SIDE_DATA_BYTE_COUNT,
            word_count == 0x4_0000,
            index <= word_count,
            state == spec_clean_room_checksum(payload@, initial, side_data@, index as nat),
        decreases word_count - index,
    {
        let word = read_be_u32(payload, index * 4);
        let side_word = read_be_u32(side_data, (index * 4) % 256);
        state = clean_room_checksum_step(state, word, side_word);
        index = index + 1;
    }
    state
}

/// The integer-register image of the handoff.
struct CleanRoomCpuPlan {
    gprs: [u64; CPU_GPR_COUNT],
    gpr_sources: [MachineBootstrapGprSource; CPU_GPR_COUNT],
    hi: u64,
    lo: u64,
}

/// Computes the integer registers that the pinned profile leaves behind for this payload.
fn clean_room_cpu_plan(
    _profile: MachineCleanRoomBootProfile,
    entry_address: u32,
    payload: &[u8],
    side_data: &[u8],
) -> (r: CleanRoomCpuPlan)
    requires
        payload@.len() == MACHINE_CLEAN_ROOM_CARTRIDGE_BYTE_COUNT,
        side_data@.len() == MACHINE_CLEAN_ROOM_SIDE_DATA_BYTE_COUNT,
    ensures
        r.gprs@ == spec_clean_room_gprs(
            entry_address,
            spec_clean_room_payload_checksum(payload@, side_data@),
        ),
        r.gpr_sources@ == spec_clean_room_gpr_sources(),
        r.hi == spec_clean_room_hi(),
        r.lo == spec_clean_room_lo(),
{
    let product: u64 = (MACHINE_CLEAN_ROOM_NTSC_X105_SEED as u64) * (
    MACHINE_CLEAN_ROOM_X105_MULTIPLIER as u64);
    let hi: u64 = product / 0x1_0000_0000;
    let lo_word: u32 = (product % 0x1_0000_0000) as u32;
    let initial: u32 = lo_word.wrapping_add(1);
    let c = clean_room_checksum_state(payload, initial, side_data);

    let mut gprs = [0u64; CPU_GPR_COUNT];
    gprs[1] = 0xffff_ffff_a460_0000;
    gprs[2] = sign_extend_u32_to_cpu_value(c.last_word);
    gprs[3] = (c.last_word % 32) as u64;
    gprs[4] = c.last_rotate as u64;
    gprs[5] = c.sum as u64;
    gprs[6] = sign_extend_u32_to_cpu_value(c.conditional);
    gprs[7] = sign_extend_u32_to_cpu_value(c.sum ^ c.carry ^ c.xor);
    gprs[8] = 0xffff_ffff_a400_2000;
    gprs[9] = sign_extend_u32_to_cpu_value(entry_address);
    gprs[10] = sign_extend_u32_to_cpu_value(c.carry);
    gprs[11] = 0xffff_ffff_b000_0000;
    gprs[12] = sign_extend_u32_to_cpu_value(c.side_sum);
    gprs[13] = 0x20;
    gprs[14] = sign_extend_u32_to_cpu_value(c.sum ^ c.carry);
    gprs[15] = 0xffff_ffff_a000_02ff;
    gprs[16] = 0x400;
    gprs[17] = 0xffff_ffff_a3f0_8000;
    gprs[18] = 0x0018_0000;
    gprs[20] = 1;
    gprs[22] = 0xffff_ffff_a000_0200;
    gprs[24] = sign_extend_u32_to_cpu_value(c.rotate_sum ^ c.conditional);
    gprs[25] = sign_extend_u32_to_cpu_value(c.xor);
    gprs[26] = 0xffff_ffff_a430_0000;
    gprs[27] = 1;
    gprs[28] = 8;
    gprs[29] = 0xffff_ffff_a400_1ff0;
    gprs[30] = 0xffff_ffff_a400_1f90;
    gprs[31] = 0xffff_ffff_a400_0324;

    let mut gpr_sources = [MachineBootstrapGprSource::CleanRoomHlePublicProfile; CPU_GPR_COUNT];
    gpr_sources[0] = MachineBootstrapGprSource::ArchitecturalZero;
    gpr_sources[9] = MachineBootstrapGprSource::CleanRoomHleCartridgeEntry;
    gpr_sources[2] = MachineBootstrapGprSource::CleanRoomHleCartridgePayload;
    gpr_sources[3] = MachineBootstrapGprSource::CleanRoomHleCartridgePayload;
    gpr_sources[4] = MachineBootstrapGprSource::CleanRoomHleCartridgePayload;
    gpr_sources[5] = MachineBootstrapGprSource::CleanRoomHleCartridgePayload;
    gpr_sources[6] = MachineBootstrapGprSource::CleanRoomHleCartridgePayload;
    gpr_sources[7] = MachineBootstrapGprSource::CleanRoomHleCartridgePayload;
    gpr_sources[10] = MachineBootstrapGprSource::CleanRoomHleCartridgePayload;
    gpr_sources[12] = MachineBootstrapGprSource::CleanRoomHleCartridgePayload;
    gpr_sources[14] = MachineBootstrapGprSource::CleanRoomHleCartridgePayload;
    gpr_sources[24] = MachineBootstrapGprSource::CleanRoomHleCartridgePayload;
    gpr_sources[25] = MachineBootstrapGprSource::CleanRoomHleCartridgePayload;

    assert(initial == spec_clean_room_checksum_seed());
    assert(gprs@ =~= spec_clean_room_gprs(
        entry_address,
        spec_clean_room_payload_checksum(payload@, side_data@),
    ));
    assert(gpr_sources@ =~= spec_clean_room_gpr_sources());
    CleanRoomCpuPlan { gprs, gpr_sources, hi, lo: sign_extend_u32_to_cpu_value(lo_word) }
}

/// Reads `byte_count` cartridge bytes starting at `start_offset`, one byte at a time.
fn read_cartridge_span(cartridge: &Cartridge, start_offset: u32, byte_count: usize) -> (r: Result<
    Vec<u8>,
    MachineCleanRoomHleError,
>)
    requires
        start_offset + byte_count <= 0x1_0000_0000,
    ensures
        byte_count == 0 ==> (r matches Ok(bytes) && bytes@.len() == 0),
        0 < byte_count && start_offset + byte_count <= cartridge.spec_image().len() ==> (r matches Ok(
            bytes,
        ) && bytes@ == cartridge.spec_image().subrange(
            start_offset as int,
            start_offset + byte_count,
        )),
        0 < byte_count && start_offset + byte_count > cartridge.spec_image().len() ==> r == Err::<
            Vec<u8>,
            MachineCleanRoomHleError,
        >(
            MachineCleanRoomHleError::CartridgeRead(
                CartridgeReadError::OutOfRange {
                    addr: if start_offset >= cartridge.spec_image().len() {
                        start_offset
                    } else {
                        cartridge.spec_image().len() as u32
                    },
                    width: 1,
                    size: cartridge.spec_image().len() as usize,
                },
            ),
        ),
{
    let mut bytes: Vec<u8> = Vec::with_capacity(byte_count);
    let mut index: usize = 0;
    while index < byte_count
        invariant
            start_offset + byte_count <= 0x1_0000_0000,
            index <= byte_count,
            index > 0 ==> start_offset + index <= cartridge.spec_image().len(),
            bytes@.len() == index,
            forall|i: int|
                0 <= i < index ==> bytes@[i] == cartridge.spec_image()[start_offset + i],
        decreases byte_count - index,
    {
        match cartridge.read_u8(start_offset + index as u32) {
            Ok(byte) => bytes.push(byte),
            Err(error) => {
                return Err(MachineCleanRoomHleError::CartridgeRead(error));
            },
        }
        index = index + 1;
    }
    assert(0 < byte_count ==> bytes@ =~= cartridge.spec_image().subrange(
        start_offset as int,
        start_offset + byte_count,
    ));
    Ok(bytes)
}

/// Everything a firmware-free cartridge-entry handoff installs: the handoff record, the
/// replacement CPU, the payload to place in RDRAM at the record's RDRAM start offset, and
/// the PI domain 1 timing taken from the cartridge header.
pub struct MachineCleanRoomHleHandoff {
    pub state: MachineCleanRoomHleState,
    pub cpu: Cpu,
    pub rdram_payload: Vec<u8>,
    pub pi_domain_one_timing: CartridgePiDomain1Timing,
}

/// The RDRAM offset that entry address `entry_address` maps to: its offset within the
/// 512 MiB direct segment.
pub open spec fn spec_clean_room_rdram_start(entry_address: u32) -> u32 {
    entry_address % 0x2000_0000
}

/// Whether any PIF boot input is installed: firmware, an IPL2 profile, or a handoff input.
pub open spec fn spec_pif_boot_inputs_installed(inputs: MachinePifBootInputs) -> bool {
    inputs.firmware_installed || inputs.profile is Some || inputs.ipl3_family is Some
        || inputs.reset_kind is Some || inputs.boot_medium is Some || inputs.pif_version_bit is Some
}

/// The refusal, if any, of a handoff for a cartridge of `cartridge_size` bytes whose header
/// names `entry_address`, checked in this order: installed PIF boot inputs, a cartridge too
/// short for the payload, an entry outside `0x8000_0000..=0x9fff_ffff`, and a payload that
/// would run past the end of RDRAM.
pub open spec fn spec_clean_room_entry_error(
    pif_boot_inputs_installed: bool,
    cartridge_size: nat,
    entry_address: u32,
) -> Option<MachineCleanRoomHleError> {
    if pif_boot_inputs_installed {
        Some(MachineCleanRoomHleError::ConflictingPifBootInputs)
    } else if cartridge_size < MACHINE_CLEAN_ROOM_CARTRIDGE_SOURCE_END_OFFSET_EXCLUSIVE {
        Some(
            MachineCleanRoomHleError::CartridgeSourceRangeUnavailable {
                required_end_offset_exclusive: MACHINE_CLEAN_ROOM_CARTRIDGE_SOURCE_END_OFFSET_EXCLUSIVE,
                actual_size_bytes: cartridge_size as usize,
            },
        )
    } else if !(0x8000_0000 <= entry_address <= 0x9fff_ffff) {
        Some(MachineCleanRoomHleError::UnsupportedEntryAddress { entry_address })
    } else if spec_clean_room_rdram_start(entry_address) + MACHINE_CLEAN_ROOM_CARTRIDGE_BYTE_COUNT
        > RDRAM_SIZE_BYTES {
        Some(
            MachineCleanRoomHleError::RdramDestinationRangeUnavailable {
                start_offset: spec_clean_room_rdram_start(entry_address),
                byte_count: MACHINE_CLEAN_ROOM_CARTRIDGE_BYTE_COUNT,
            },
        )
    } else {
        None
    }
}

/// The CPU a handoff to `entry_address` leaves behind, given the payload checksum: a fresh
/// CPU with the profile's integer registers, HI/LO, Status, PageMask and FCR31, about to
/// execute the entry instruction.
pub open spec fn spec_clean_room_cpu(
    cpu: CpuState,
    entry_address: u32,
    checksum: CleanRoomChecksumState,
) -> bool {
    &&& cpu.pc == entry_address
    &&& cpu.next_pc == spec_sequential_instruction_address(entry_address)
    &&& cpu.delay_slot_context is None
    &&& cpu.hi == spec_clean_room_hi()
    &&& cpu.lo == spec_clean_room_lo()
    &&& cpu.gprs.len() == CPU_GPR_COUNT
    &&& cpu.gpr_values() == spec_clean_room_gprs(entry_address, checksum)
    &&& cpu.cop0.status == MACHINE_CLEAN_ROOM_COP0_STATUS
    &&& cpu.cop0.page_mask == Some(MACHINE_CLEAN_ROOM_COP0_PAGE_MASK)
    &&& (Cop0 { status: 0, page_mask: None, ..cpu.cop0 }).spec_is_new()
    &&& cpu.cop1.fcr31 == Some(
        MachineCop1Fcr31State {
            raw_word: 0,
            source: MachineCop1Fcr31Source::CleanRoomHleNtscX105Pinned,
        },
    )
    &&& (Cop1 { fcr31: None, ..cpu.cop1 }).spec_is_new()
    &&& cpu.caches == spec_cold_primary_caches()
}

/// The handoff record for a cartridge whose header names `entry_address`.
pub open spec fn spec_clean_room_state(
    profile: MachineCleanRoomBootProfile,
    source_layout: RomSourceLayout,
    entry_address: u32,
) -> CleanRoomHleStateView {
    CleanRoomHleStateView {
        profile,
        source_layout,
        cartridge_start_offset: MACHINE_CLEAN_ROOM_CARTRIDGE_SOURCE_START_OFFSET,
        cartridge_end_offset_exclusive: MACHINE_CLEAN_ROOM_CARTRIDGE_SOURCE_END_OFFSET_EXCLUSIVE,
        rdram_start_offset: spec_clean_room_rdram_start(entry_address),
        rdram_end_offset_exclusive: (spec_clean_room_rdram_start(entry_address)
            + MACHINE_CLEAN_ROOM_CARTRIDGE_BYTE_COUNT) as u32,
        execution_pc: CpuAddress(entry_address),
        next_pc: CpuAddress(spec_sequential_instruction_address(entry_address)),
        cpu_state_kind: MachineBootstrapCpuStateKind::CleanRoomCartridgeEntryNtscX105Pinned,
        cop0_status_source: MachineBootstrapCop0StatusSource::CleanRoomHlePublicProfile,
        gpr_sources: spec_clean_room_gpr_sources(),
    }
}

/// Computes one atomic, firmware-free cartridge-entry handoff.
///
/// No PIF, IPL2, IPL3, CPU or RSP code runs. The handoff takes the normalized cartridge and
/// one public profile and produces only the profile's cartridge-derived payload and its
/// post-boot CPU state; it is refused while any PIF boot input is installed.
pub fn stage_clean_room_cartridge_entry(
    cartridge: &Cartridge,
    pif_boot_inputs: MachinePifBootInputs,
    profile: MachineCleanRoomBootProfile,
) -> (r: Result<MachineCleanRoomHleHandoff, MachineCleanRoomHleError>)
    ensures
        r is Err <==> spec_clean_room_entry_error(
            spec_pif_boot_inputs_installed(pif_boot_inputs),
            cartridge.spec_image().len(),
            cartridge.spec_metadata().entry_point,
        ) is Some,
        r matches Err(e) ==> spec_clean_room_entry_error(
            spec_pif_boot_inputs_installed(pif_boot_inputs),
            cartridge.spec_image().len(),
            cartridge.spec_metadata().entry_point,
        ) == Some(e),
        r matches Ok(handoff) ==> {
            let entry_address = cartridge.spec_metadata().entry_point;
            let image = cartridge.spec_image();
            let payload = image.subrange(
                MACHINE_CLEAN_ROOM_CARTRIDGE_SOURCE_START_OFFSET as int,
                MACHINE_CLEAN_ROOM_CARTRIDGE_SOURCE_END_OFFSET_EXCLUSIVE as int,
            );
            let side_data = image.subrange(
                MACHINE_CLEAN_ROOM_SIDE_DATA_START_OFFSET as int,
                MACHINE_CLEAN_ROOM_SIDE_DATA_START_OFFSET + MACHINE_CLEAN_ROOM_SIDE_DATA_BYTE_COUNT,
            );
            &&& handoff.state@ == spec_clean_room_state(
                profile,
                cartridge.spec_source_layout(),
                entry_address,
            )
            &&& handoff.rdram_payload@ == payload
            &&& handoff.pi_domain_one_timing == cartridge.spec_metadata().pi_domain_one_timing
            &&& spec_clean_room_cpu(
                handoff.cpu@,
                entry_address,
                spec_clean_room_payload_checksum(payload, side_data),
            )
        },
{
    if pif_boot_inputs.firmware_installed || pif_boot_inputs.profile.is_some()
        || pif_boot_inputs.ipl3_family.is_some() || pif_boot_inputs.reset_kind.is_some()
        || pif_boot_inputs.boot_medium.is_some() || pif_boot_inputs.pif_version_bit.is_some() {
        return Err(MachineCleanRoomHleError::ConflictingPifBootInputs);
    }
    let required_end = MACHINE_CLEAN_ROOM_CARTRIDGE_SOURCE_END_OFFSET_EXCLUSIVE;
    if cartridge.size_bytes() < required_end as usize {
        return Err(
            MachineCleanRoomHleError::CartridgeSourceRangeUnavailable {
                required_end_offset_exclusive: required_end,
                actual_size_bytes: cartridge.size_bytes(),
            },
        );
    }
    let entry_address = cartridge.metadata().entry_point;
    if !(0x8000_0000 <= entry_address && entry_address <= 0x9fff_ffff) {
        return Err(MachineCleanRoomHleError::UnsupportedEntryAddress { entry_address });
    }
    let rdram_start_offset = entry_address & 0x1fff_ffff;
    assert(entry_address & 0x1fff_ffff == entry_address % 0x2000_0000) by (bit_vector);
    let rdram_end_offset_exclusive = match rdram_start_offset.checked_add(
        MACHINE_CLEAN_ROOM_CARTRIDGE_BYTE_COUNT,
    ) {
        Some(end) => end,
        None => {
            return Err(
                MachineCleanRoomHleError::RdramDestinationRangeUnavailable {
                    start_offset: rdram_start_offset,
                    byte_count: MACHINE_CLEAN_ROOM_CARTRIDGE_BYTE_COUNT,
                },
            );
        },
    };
    if rdram_end_offset_exclusive as usize > RDRAM_SIZE_BYTES {
        return Err(
            MachineCleanRoomHleError::RdramDestinationRangeUnavailable {
                start_offset: rdram_start_offset,
                byte_count: MACHINE_CLEAN_ROOM_CARTRIDGE_BYTE_COUNT,
            },
        );
    }

    let payload = match read_cartridge_span(
        cartridge,
        MACHINE_CLEAN_ROOM_CARTRIDGE_SOURCE_START_OFFSET,
        MACHINE_CLEAN_ROOM_CARTRIDGE_BYTE_COUNT as usize,
    ) {
        Ok(bytes) => bytes,
        Err(error) => {
            return Err(error);
        },
    };
    let side_data = match read_cartridge_span(
        cartridge,
        MACHINE_CLEAN_ROOM_SIDE_DATA_START_OFFSET,
        MACHINE_CLEAN_ROOM_SIDE_DATA_BYTE_COUNT,
    ) {
        Ok(bytes) => bytes,
        Err(error) => {
            return Err(error);
        },
    };
    let plan = clean_room_cpu_plan(profile, entry_address, payload.as_slice(), side_data.as_slice());

    let mut cpu = Cpu::new();
    let ghost fresh = cpu@;
    let mut index: usize = 0;
    while index < CPU_GPR_COUNT
        invariant
            index <= CPU_GPR_COUNT,
            plan.gprs@.len() == CPU_GPR_COUNT,
            cpu@ == (CpuState { gprs: cpu@.gprs, ..fresh }),
            cpu@.gprs.len() == CPU_GPR_COUNT,
            forall|i: int| 0 < i < index ==> cpu@.gprs[i] == plan.gprs@[i],
            forall|i: int| index <= i < CPU_GPR_COUNT ==> cpu@.gprs[i] == 0,
            fresh.gprs == Seq::new(32, |i: int| 0u64),
        decreases CPU_GPR_COUNT - index,
    {
        match cpu.set_gpr(index, plan.gprs[index]) {
            Ok(()) => {},
            Err(error) => {
                return Err(MachineCleanRoomHleError::CpuRegister(error));
            },
        }
        index = index + 1;
    }
    cpu.stage_hi(plan.hi);
    cpu.stage_lo(plan.lo);
    cpu.stage_clean_room_cartridge_entry_cop0(
        MACHINE_CLEAN_ROOM_COP0_STATUS,
        MACHINE_CLEAN_ROOM_COP0_PAGE_MASK,
    );
    cpu.stage_clean_room_hle_fcr31();
    cpu.stage_pc(entry_address);
    assert(cpu@.gpr_values() =~= plan.gprs@);

    let state = MachineCleanRoomHleState {
        profile,
        source_layout: cartridge.source_layout(),
        cartridge_start_offset: MACHINE_CLEAN_ROOM_CARTRIDGE_SOURCE_START_OFFSET,
        cartridge_end_offset_exclusive: MACHINE_CLEAN_ROOM_CARTRIDGE_SOURCE_END_OFFSET_EXCLUSIVE,
        rdram_start_offset,
        rdram_end_offset_exclusive,
        execution_pc: CpuAddress::new(entry_address),
        next_pc: CpuAddress::new(sequential_instruction_address(entry_address)),
        cpu_state_kind: MachineBootstrapCpuStateKind::CleanRoomCartridgeEntryNtscX105Pinned,
        cop0_status_source: MachineBootstrapCop0StatusSource::CleanRoomHlePublicProfile,
        gpr_sources: plan.gpr_sources,
    };
    Ok(
        MachineCleanRoomHleHandoff {
            state,
            cpu,
            rdram_payload: payload,
            pi_domain_one_timing: cartridge.metadata().pi_domain_one_timing,
        },
    )
}

/// A clean-room handoff leaves no general-purpose register of unknown origin.
pub proof fn lemma_clean_room_sources_are_known(index: int)
    requires
        0 <= index < CPU_GPR_COUNT,
    ensures
        !(spec_clean_room_gpr_sources()[index] is UnknownPifProduced),
{
}

} // verus!
