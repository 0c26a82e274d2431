use super::instruction::{CpuInstructionFields, CpuInstructionIdentity};
use super::cop0::{
    spec_exception_return_post, spec_tlb_probe_post, spec_tlb_read_post,
    spec_tlb_write_indexed_post, spec_tlb_write_random_post, CpuCop0ExceptionReturnError,
    MachineCop0TlbOperationError,
};
use super::registers::CpuRegisterIndexError;
use super::{Cpu, CpuState};
use vstd::prelude::*;

verus! {

// ---------------------------------------------------------------------------------------
// Integer views of register values.
// ---------------------------------------------------------------------------------------
/// The low 32 bits of a register value.
pub open spec fn spec_word(v: u64) -> u32 {
    (v as int % 0x1_0000_0000) as u32
}

/// A 32-bit word sign-extended to 64 bits.
pub open spec fn spec_sext32(v: u32) -> u64 {
    if v < 0x8000_0000 {
        v as u64
    } else {
        (v as int + 0xffff_ffff_0000_0000) as u64
    }
}

/// A 16-bit immediate sign-extended to 64 bits.
pub open spec fn spec_sext16(v: u16) -> u64 {
    if v < 0x8000 {
        v as u64
    } else {
        (v as int + 0xffff_ffff_ffff_0000) as u64
    }
}

/// A 16-bit immediate sign-extended to 32 bits.
pub open spec fn spec_sext16_word(v: u16) -> u32 {
    if v < 0x8000 {
        v as u32
    } else {
        (v as int + 0xffff_0000) as u32
    }
}

/// The two's-complement value of a 64-bit register.
pub open spec fn spec_signed64(v: u64) -> int {
    if v < 0x8000_0000_0000_0000 {
        v as int
    } else {
        v as int - 0x1_0000_0000_0000_0000
    }
}

/// The two's-complement value of a 32-bit word.
pub open spec fn spec_signed32(v: u32) -> int {
    if v < 0x8000_0000 {
        v as int
    } else {
        v as int - 0x1_0000_0000
    }
}

/// The two's-complement value of a 16-bit immediate.
pub open spec fn spec_signed16(v: u16) -> int {
    if v < 0x8000 {
        v as int
    } else {
        v as int - 0x1_0000
    }
}

/// The 32-bit two's-complement encoding of `x`.
pub open spec fn spec_word_bits(x: int) -> u32 {
    (x % 0x1_0000_0000) as u32
}

/// The 64-bit two's-complement encoding of `x`.
pub open spec fn spec_doubleword_bits(x: int) -> u64 {
    (x % 0x1_0000_0000_0000_0000) as u64
}

/// 1 for true, 0 for false.
pub open spec fn spec_bool_value(b: bool) -> u64 {
    if b {
        1
    } else {
        0
    }
}

/// The state after writing register `index`; a write to register 0 is dropped.
pub open spec fn spec_write_gpr(s: CpuState, index: int, value: u64) -> CpuState {
    if index == 0 {
        s
    } else {
        CpuState { gprs: s.gprs.update(index, value), ..s }
    }
}

fn read_gpr_word(cpu: &Cpu, index: u8) -> (r: u32)
    requires
        index < 32,
    ensures
        r == spec_word(cpu@.gpr(index as int)),
{
    let v = match cpu.gpr(index as usize) {
        Some(v) => v,
        None => 0,
    };
    proof {
        crate::bytes::lemma_u64_word_split(v);
    }
    v as u32
}

fn read_gpr_value(cpu: &Cpu, index: u8) -> (r: u64)
    requires
        index < 32,
    ensures
        r == cpu@.gpr(index as int),
{
    match cpu.gpr(index as usize) {
        Some(v) => v,
        None => 0,
    }
}

proof fn lemma_sign_extension_bits(w: u32, h: u16)
    ensures
        (w & 0x8000_0000u32 == 0) == (w < 0x8000_0000u32),
        0xffff_ffff_0000_0000u64 | (w as u64) == (w as u64) + 0xffff_ffff_0000_0000u64,
        (h & 0x8000u16 == 0) == (h < 0x8000u16),
        0xffff_0000u32 | (h as u32) == (h as u32) + 0xffff_0000u32,
        0xffff_ffff_ffff_0000u64 | (h as u64) == (h as u64) + 0xffff_ffff_ffff_0000u64,
        w & 0x1fu32 == w % 32,
{
    assert((w & 0x8000_0000u32 == 0) == (w < 0x8000_0000u32) && 0xffff_ffff_0000_0000u64 | (
    w as u64) == (w as u64) + 0xffff_ffff_0000_0000u64 && (h & 0x8000u16 == 0) == (h
        < 0x8000u16) && 0xffff_0000u32 | (h as u32) == (h as u32) + 0xffff_0000u32
        && 0xffff_ffff_ffff_0000u64 | (h as u64) == (h as u64) + 0xffff_ffff_ffff_0000u64 && w
        & 0x1fu32 == w % 32) by (bit_vector);
}

pub fn sign_extend_u32_to_cpu_value(value: u32) -> (r: u64)
    ensures
        r == spec_sext32(value),
{
    proof {
        lemma_sign_extension_bits(value, 0);
    }
    if (value & 0x8000_0000) == 0 {
        value as u64
    } else {
        0xffff_ffff_0000_0000 | value as u64
    }
}

pub fn sign_extend_u16_to_u32(value: u16) -> (r: u32)
    ensures
        r == spec_sext16_word(value),
{
    proof {
        lemma_sign_extension_bits(0, value);
    }
    if (value & 0x8000) == 0 {
        value as u32
    } else {
        0xffff_0000 | value as u32
    }
}

pub fn sign_extend_u16_to_cpu_value(value: u16) -> (r: u64)
    ensures
        r == spec_sext16(value),
{
    proof {
        lemma_sign_extension_bits(0, value);
    }
    if (value & 0x8000) == 0 {
        value as u64
    } else {
        0xffff_ffff_ffff_0000 | value as u64
    }
}

/// The low five bits of a register word, as a 32-bit shift amount.
pub fn variable_shift_amount_u32(value: u32) -> (r: u8)
    ensures
        r == value % 32,
{
    proof {
        lemma_sign_extension_bits(value, 0);
    }
    (value & 0x1f) as u8
}

/// The low six bits of a register value, as a 64-bit shift amount.
pub fn variable_shift_amount_cpu_value(value: u64) -> (r: u8)
    ensures
        r == value % 64,
{
    assert(value & 0x3fu64 == value % 64) by (bit_vector);
    (value & 0x3f) as u8
}

pub fn arithmetic_shift_right_u32(value: u32, sa: u8) -> (r: u32)
    requires
        sa < 32,
    ensures
        r == ((value as i32) >> (sa as u32)) as u32,
{
    ((value as i32) >> (sa as u32)) as u32
}

pub fn arithmetic_shift_right_cpu_value(value: u64, sa: u8) -> (r: u64)
    requires
        sa < 64,
    ensures
        r == ((value as i64) >> (sa as u32)) as u64,
{
    ((value as i64) >> (sa as u32)) as u64
}

/// Signed comparison of two register values.
pub fn signed_cpu_value_less_than(lhs: u64, rhs: u64) -> (r: bool)
    ensures
        r == (spec_signed64(lhs) < spec_signed64(rhs)),
{
    let lhs_negative = lhs >= 0x8000_0000_0000_0000;
    let rhs_negative = rhs >= 0x8000_0000_0000_0000;
    if lhs_negative != rhs_negative {
        lhs_negative
    } else {
        lhs < rhs
    }
}

proof fn lemma_overflow_sign_bits(a: u64, b: u64, sum: u64, difference: u64)
    ensures
        (((!(a ^ b) & (a ^ sum)) & 0x8000_0000_0000_0000u64) != 0) == ((a
            < 0x8000_0000_0000_0000u64) == (b < 0x8000_0000_0000_0000u64) && (a
            < 0x8000_0000_0000_0000u64) != (sum < 0x8000_0000_0000_0000u64)),
        ((((a ^ b) & (a ^ difference)) & 0x8000_0000_0000_0000u64) != 0) == ((a
            < 0x8000_0000_0000_0000u64) != (b < 0x8000_0000_0000_0000u64) && (a
            < 0x8000_0000_0000_0000u64) != (difference < 0x8000_0000_0000_0000u64)),
{
    assert((((!(a ^ b) & (a ^ sum)) & 0x8000_0000_0000_0000u64) != 0) == ((a
        < 0x8000_0000_0000_0000u64) == (b < 0x8000_0000_0000_0000u64) && (a
        < 0x8000_0000_0000_0000u64) != (sum < 0x8000_0000_0000_0000u64)) && ((((a ^ b) & (a
        ^ difference)) & 0x8000_0000_0000_0000u64) != 0) == ((a < 0x8000_0000_0000_0000u64) != (b
        < 0x8000_0000_0000_0000u64) && (a < 0x8000_0000_0000_0000u64) != (difference
        < 0x8000_0000_0000_0000u64))) by (bit_vector);
}

/// Whether `lhs + rhs` leaves the signed 64-bit range, judged from the wrapped `result`.
pub fn signed_cpu_add_overflows(lhs: u64, rhs: u64, result: u64) -> (r: bool)
    requires
        result as int == (lhs as int + rhs as int) % 0x1_0000_0000_0000_0000,
    ensures
        r == !(-0x8000_0000_0000_0000 <= spec_signed64(lhs) + spec_signed64(rhs)
            < 0x8000_0000_0000_0000),
{
    proof {
        lemma_overflow_sign_bits(lhs, rhs, result, 0);
    }
    ((!(lhs ^ rhs) & (lhs ^ result)) & 0x8000_0000_0000_0000) != 0
}

/// Whether `lhs - rhs` leaves the signed 64-bit range, judged from the wrapped `result`.
pub fn signed_cpu_sub_overflows(lhs: u64, rhs: u64, result: u64) -> (r: bool)
    requires
        result as int == (lhs as int - rhs as int) % 0x1_0000_0000_0000_0000,
    ensures
        r == !(-0x8000_0000_0000_0000 <= spec_signed64(lhs) - spec_signed64(rhs)
            < 0x8000_0000_0000_0000),
{
    proof {
        lemma_overflow_sign_bits(lhs, rhs, 0, result);
    }
    (((lhs ^ rhs) & (lhs ^ result)) & 0x8000_0000_0000_0000) != 0
}

/// The two's-complement value of a 32-bit word.
pub fn signed_word_value(value: u32) -> (r: i64)
    ensures
        r == spec_signed32(value),
{
    let v = value as i64;
    if v >= 0x8000_0000 {
        v - 0x1_0000_0000
    } else {
        v
    }
}

/// The two's-complement value of a 16-bit immediate.
pub fn signed_halfword_value(value: u16) -> (r: i64)
    ensures
        r == spec_signed16(value),
{
    let v = value as i64;
    if v >= 0x8000 {
        v - 0x1_0000
    } else {
        v
    }
}

pub fn signed_i32_result_out_of_range(value: i64) -> (r: bool)
    ensures
        r == !(-0x8000_0000 <= value < 0x8000_0000),
{
    value < -0x8000_0000 || value > 0x7fff_ffff
}

/// The 32-bit encoding of an in-range signed value.
pub fn u32_bits_from_i32_value(value: i64) -> (r: u32)
    requires
        -0x8000_0000 <= value < 0x8000_0000,
    ensures
        r == spec_word_bits(value as int),
{
    if value < 0 {
        (value + 0x1_0000_0000) as u32
    } else {
        value as u32
    }
}

pub fn cpu_value_from_bool(value: bool) -> (r: u64)
    ensures
        r == spec_bool_value(value),
{
    if value {
        1
    } else {
        0
    }
}

// ---------------------------------------------------------------------------------------
// What each instruction family computes.
// ---------------------------------------------------------------------------------------
/// The value a SPECIAL shift writes to rd, or `None` for an identity outside the family.
pub open spec fn spec_special_shift_value(
    identity: CpuInstructionIdentity,
    rs: u64,
    rt: u64,
    sa: u8,
) -> Option<u64> {
    let w = spec_word(rt);
    let variable_word_sa = (spec_word(rs) % 32) as u8;
    let variable_doubleword_sa = (rs % 64) as u8;
    match identity {
        CpuInstructionIdentity::SpecialSll => Some(spec_sext32(w << sa)),
        CpuInstructionIdentity::SpecialSrl => Some(spec_sext32(w >> sa)),
        CpuInstructionIdentity::SpecialSra => Some(
            spec_sext32(((w as i32) >> (sa as u32)) as u32),
        ),
        CpuInstructionIdentity::SpecialSllv => Some(spec_sext32(w << variable_word_sa)),
        CpuInstructionIdentity::SpecialSrlv => Some(spec_sext32(w >> variable_word_sa)),
        CpuInstructionIdentity::SpecialSrav => Some(
            spec_sext32(((w as i32) >> (variable_word_sa as u32)) as u32),
        ),
        CpuInstructionIdentity::SpecialDsll => Some(rt << sa),
        CpuInstructionIdentity::SpecialDsrl => Some(rt >> sa),
        CpuInstructionIdentity::SpecialDsra => Some(((rt as i64) >> (sa as u32)) as u64),
        CpuInstructionIdentity::SpecialDsll32 => Some(rt << ((sa + 32) as u8)),
        CpuInstructionIdentity::SpecialDsrl32 => Some(rt >> ((sa + 32) as u8)),
        CpuInstructionIdentity::SpecialDsra32 => Some(
            ((rt as i64) >> ((sa + 32) as u32)) as u64,
        ),
        CpuInstructionIdentity::SpecialDsllv => Some(rt << variable_doubleword_sa),
        CpuInstructionIdentity::SpecialDsrlv => Some(rt >> variable_doubleword_sa),
        CpuInstructionIdentity::SpecialDsrav => Some(
            ((rt as i64) >> (variable_doubleword_sa as u32)) as u64,
        ),
        _ => None,
    }
}

/// The value a SPECIAL bitwise instruction writes to rd.
pub open spec fn spec_special_bitwise_logical_value(
    identity: CpuInstructionIdentity,
    rs: u64,
    rt: u64,
) -> Option<u64> {
    match identity {
        CpuInstructionIdentity::SpecialAnd => Some(rs & rt),
        CpuInstructionIdentity::SpecialOr => Some(rs | rt),
        CpuInstructionIdentity::SpecialXor => Some(rs ^ rt),
        CpuInstructionIdentity::SpecialNor => Some(!(rs | rt)),
        _ => None,
    }
}

/// The value a non-trapping SPECIAL integer instruction writes to rd: word arithmetic
/// wraps and sign-extends, doubleword arithmetic wraps, comparisons give 0 or 1.
pub open spec fn spec_special_non_trapping_integer_value(
    identity: CpuInstructionIdentity,
    rs: u64,
    rt: u64,
) -> Option<u64> {
    match identity {
        CpuInstructionIdentity::SpecialAddu => Some(
            spec_sext32(spec_word_bits(spec_word(rs) + spec_word(rt))),
        ),
        CpuInstructionIdentity::SpecialSubu => Some(
            spec_sext32(spec_word_bits(spec_word(rs) - spec_word(rt))),
        ),
        CpuInstructionIdentity::SpecialDaddu => Some(spec_doubleword_bits(rs + rt)),
        CpuInstructionIdentity::SpecialDsubu => Some(spec_doubleword_bits(rs - rt)),
        CpuInstructionIdentity::SpecialSlt => Some(
            spec_bool_value(spec_signed64(rs) < spec_signed64(rt)),
        ),
        CpuInstructionIdentity::SpecialSltu => Some(spec_bool_value(rs < rt)),
        _ => None,
    }
}

/// Whether `identity` is a trapping SPECIAL integer instruction.
pub open spec fn spec_is_special_trapping_integer(identity: CpuInstructionIdentity) -> bool {
    ||| identity is SpecialAdd
    ||| identity is SpecialSub
    ||| identity is SpecialDadd
    ||| identity is SpecialDsub
}

/// The exact signed result of a trapping SPECIAL integer instruction.
pub open spec fn spec_special_trapping_integer_result(
    identity: CpuInstructionIdentity,
    rs: u64,
    rt: u64,
) -> int {
    match identity {
        CpuInstructionIdentity::SpecialAdd => spec_signed32(spec_word(rs)) + spec_signed32(
            spec_word(rt),
        ),
        CpuInstructionIdentity::SpecialSub => spec_signed32(spec_word(rs)) - spec_signed32(
            spec_word(rt),
        ),
        CpuInstructionIdentity::SpecialDadd => spec_signed64(rs) + spec_signed64(rt),
        _ => spec_signed64(rs) - spec_signed64(rt),
    }
}

/// Whether the trapping instruction overflows: its exact result leaves the signed range of
/// its width.
pub open spec fn spec_special_trapping_integer_overflows(
    identity: CpuInstructionIdentity,
    rs: u64,
    rt: u64,
) -> bool {
    let x = spec_special_trapping_integer_result(identity, rs, rt);
    if identity is SpecialAdd || identity is SpecialSub {
        !(-0x8000_0000 <= x < 0x8000_0000)
    } else {
        !(-0x8000_0000_0000_0000 <= x < 0x8000_0000_0000_0000)
    }
}

/// The value a trapping SPECIAL integer instruction writes when it does not overflow.
pub open spec fn spec_special_trapping_integer_value(
    identity: CpuInstructionIdentity,
    rs: u64,
    rt: u64,
) -> u64 {
    let x = spec_special_trapping_integer_result(identity, rs, rt);
    if identity is SpecialAdd || identity is SpecialSub {
        spec_sext32(spec_word_bits(x))
    } else {
        spec_doubleword_bits(x)
    }
}

/// The exact signed result of ADDI or DADDI.
pub open spec fn spec_immediate_trapping_integer_result(
    identity: CpuInstructionIdentity,
    rs: u64,
    immediate: u16,
) -> int {
    if identity is Addi {
        spec_signed32(spec_word(rs)) + spec_signed16(immediate)
    } else {
        spec_signed64(rs) + spec_signed16(immediate)
    }
}

pub open spec fn spec_immediate_trapping_integer_overflows(
    identity: CpuInstructionIdentity,
    rs: u64,
    immediate: u16,
) -> bool {
    let x = spec_immediate_trapping_integer_result(identity, rs, immediate);
    if identity is Addi {
        !(-0x8000_0000 <= x < 0x8000_0000)
    } else {
        !(-0x8000_0000_0000_0000 <= x < 0x8000_0000_0000_0000)
    }
}

pub open spec fn spec_immediate_trapping_integer_value(
    identity: CpuInstructionIdentity,
    rs: u64,
    immediate: u16,
) -> u64 {
    let x = spec_immediate_trapping_integer_result(identity, rs, immediate);
    if identity is Addi {
        spec_sext32(spec_word_bits(x))
    } else {
        spec_doubleword_bits(x)
    }
}

/// The value ADDIU or DADDIU writes to rt: wrapping addition of the sign-extended immediate.
pub open spec fn spec_immediate_non_trapping_integer_value(
    identity: CpuInstructionIdentity,
    rs: u64,
    immediate: u16,
) -> Option<u64> {
    match identity {
        CpuInstructionIdentity::Addiu => Some(
            spec_sext32(spec_word_bits(spec_word(rs) + spec_sext16_word(immediate))),
        ),
        CpuInstructionIdentity::Daddiu => Some(spec_doubleword_bits(rs + spec_sext16(immediate))),
        _ => None,
    }
}

/// The value SLTI or SLTIU writes to rt; both compare with the sign-extended immediate.
pub open spec fn spec_immediate_comparison_value(
    identity: CpuInstructionIdentity,
    rs: u64,
    immediate: u16,
) -> Option<u64> {
    match identity {
        CpuInstructionIdentity::Slti => Some(
            spec_bool_value(spec_signed64(rs) < spec_signed64(spec_sext16(immediate))),
        ),
        CpuInstructionIdentity::Sltiu => Some(spec_bool_value(rs < spec_sext16(immediate))),
        _ => None,
    }
}

/// The value ANDI, ORI or XORI writes to rt; the immediate is zero-extended.
pub open spec fn spec_immediate_bitwise_logical_value(
    identity: CpuInstructionIdentity,
    rs: u64,
    immediate: u16,
) -> Option<u64> {
    match identity {
        CpuInstructionIdentity::Andi => Some(rs & (immediate as u64)),
        CpuInstructionIdentity::Ori => Some(rs | (immediate as u64)),
        CpuInstructionIdentity::Xori => Some(rs ^ (immediate as u64)),
        _ => None,
    }
}

/// The value LUI writes to rt: the immediate in the upper half of the word, sign-extended.
pub open spec fn spec_upper_immediate_value(identity: CpuInstructionIdentity, immediate: u16) -> Option<
    u64,
> {
    match identity {
        CpuInstructionIdentity::Lui => Some(spec_sext32((immediate as int * 0x1_0000) as u32)),
        _ => None,
    }
}

/// Register values an instruction reads, from the state before it runs.
pub open spec fn spec_rs_value(s: CpuState, f: CpuInstructionFields) -> u64 {
    s.gpr(f.spec_rs() as int)
}

pub open spec fn spec_rt_value(s: CpuState, f: CpuInstructionFields) -> u64 {
    s.gpr(f.spec_rt() as int)
}

// ---------------------------------------------------------------------------------------
// Results and errors of each family.
// ---------------------------------------------------------------------------------------
#[derive(Debug, Clone, Copy, PartialEq, Eq, Structural)]
pub struct CpuSpecialShiftExecutedInstruction {
    pub identity: CpuInstructionIdentity,
}

impl CpuSpecialShiftExecutedInstruction {
    pub fn identity(self) -> (r: CpuInstructionIdentity)
        ensures
            r == self.identity,
    {
        self.identity
    }
}

#[derive(Debug, Clone, Copy, PartialEq, Eq, Structural)]
pub enum CpuSpecialShiftExecutionError {
    UnsupportedIdentity(CpuInstructionIdentity),
    RegisterIndex(CpuRegisterIndexError),
}

#[derive(Debug, Clone, Copy, PartialEq, Eq, Structural)]
pub struct CpuSpecialBitwiseLogicalExecutedInstruction {
    pub identity: CpuInstructionIdentity,
}

impl CpuSpecialBitwiseLogicalExecutedInstruction {
    pub fn identity(self) -> (r: CpuInstructionIdentity)
        ensures
            r == self.identity,
    {
        self.identity
    }
}

#[derive(Debug, Clone, Copy, PartialEq, Eq, Structural)]
pub enum CpuSpecialBitwiseLogicalExecutionError {
    UnsupportedIdentity(CpuInstructionIdentity),
    RegisterIndex(CpuRegisterIndexError),
}

#[derive(Debug, Clone, Copy, PartialEq, Eq, Structural)]
pub struct CpuSpecialHiLoTransferExecutedInstruction {
    pub identity: CpuInstructionIdentity,
}

impl CpuSpecialHiLoTransferExecutedInstruction {
    pub fn identity(self) -> (r: CpuInstructionIdentity)
        ensures
            r == self.identity,
    {
        self.identity
    }
}

#[derive(Debug, Clone, Copy, PartialEq, Eq, Structural)]
pub enum CpuSpecialHiLoTransferExecutionError {
    UnsupportedIdentity(CpuInstructionIdentity),
    RegisterIndex(CpuRegisterIndexError),
}

#[derive(Debug, Clone, Copy, PartialEq, Eq, Structural)]
pub struct CpuSpecialNonTrappingIntegerExecutedInstruction {
    pub identity: CpuInstructionIdentity,
}

impl CpuSpecialNonTrappingIntegerExecutedInstruction {
    pub fn identity(self) -> (r: CpuInstructionIdentity)
        ensures
            r == self.identity,
    {
        self.identity
    }
}

#[derive(Debug, Clone, Copy, PartialEq, Eq, Structural)]
pub enum CpuSpecialNonTrappingIntegerExecutionError {
    UnsupportedIdentity(CpuInstructionIdentity),
    RegisterIndex(CpuRegisterIndexError),
}

#[derive(Debug, Clone, Copy, PartialEq, Eq, Structural)]
pub struct CpuSpecialTrappingIntegerExecutedInstruction {
    pub identity: CpuInstructionIdentity,
}

impl CpuSpecialTrappingIntegerExecutedInstruction {
    pub fn identity(self) -> (r: CpuInstructionIdentity)
        ensures
            r == self.identity,
    {
        self.identity
    }
}

/// A trapping SPECIAL instruction that overflowed, with the operands it read.
#[derive(Debug, Clone, Copy, PartialEq, Eq, Structural)]
pub struct CpuSpecialTrappingIntegerOverflow {
    pub identity: CpuInstructionIdentity,
    pub rd: u8,
    pub rs_value: u64,
    pub rt_value: u64,
}

impl CpuSpecialTrappingIntegerOverflow {
    pub fn identity(self) -> (r: CpuInstructionIdentity)
        ensures
            r == self.identity,
    {
        self.identity
    }

    pub fn rd(self) -> (r: u8)
        ensures
            r == self.rd,
    {
        self.rd
    }

    pub fn rs_value(self) -> (r: u64)
        ensures
            r == self.rs_value,
    {
        self.rs_value
    }

    pub fn rt_value(self) -> (r: u64)
        ensures
            r == self.rt_value,
    {
        self.rt_value
    }
}

#[derive(Debug, Clone, Copy, PartialEq, Eq, Structural)]
pub enum CpuSpecialTrappingIntegerExecutionOutcome {
    Executed(CpuSpecialTrappingIntegerExecutedInstruction),
    Overflow(CpuSpecialTrappingIntegerOverflow),
}

impl CpuSpecialTrappingIntegerExecutionOutcome {
    pub fn identity(self) -> (r: CpuInstructionIdentity)
        ensures
            r == (match self {
                CpuSpecialTrappingIntegerExecutionOutcome::Executed(e) => e.identity,
                CpuSpecialTrappingIntegerExecutionOutcome::Overflow(o) => o.identity,
            }),
    {
        match self {
            CpuSpecialTrappingIntegerExecutionOutcome::Executed(e) => e.identity(),
            CpuSpecialTrappingIntegerExecutionOutcome::Overflow(o) => o.identity(),
        }
    }

    pub fn is_executed(self) -> (r: bool)
        ensures
            r == self is Executed,
    {
        match self {
            CpuSpecialTrappingIntegerExecutionOutcome::Executed(_) => true,
            CpuSpecialTrappingIntegerExecutionOutcome::Overflow(_) => false,
        }
    }

    pub fn is_overflow(self) -> (r: bool)
        ensures
            r == self is Overflow,
    {
        match self {
            CpuSpecialTrappingIntegerExecutionOutcome::Executed(_) => false,
            CpuSpecialTrappingIntegerExecutionOutcome::Overflow(_) => true,
        }
    }
}

#[derive(Debug, Clone, Copy, PartialEq, Eq, Structural)]
pub enum CpuSpecialTrappingIntegerExecutionError {
    UnsupportedIdentity(CpuInstructionIdentity),
    RegisterIndex(CpuRegisterIndexError),
}

#[derive(Debug, Clone, Copy, PartialEq, Eq, Structural)]
pub struct CpuImmediateTrappingIntegerExecutedInstruction {
    pub identity: CpuInstructionIdentity,
}

impl CpuImmediateTrappingIntegerExecutedInstruction {
    pub fn identity(self) -> (r: CpuInstructionIdentity)
        ensures
            r == self.identity,
    {
        self.identity
    }
}

/// A trapping immediate instruction that overflowed, with the operands it read.
#[derive(Debug, Clone, Copy, PartialEq, Eq, Structural)]
pub struct CpuImmediateTrappingIntegerOverflow {
    pub identity: CpuInstructionIdentity,
    pub rt: u8,
    pub rs_value: u64,
    pub immediate_u16: u16,
    pub immediate_value: u64,
}

impl CpuImmediateTrappingIntegerOverflow {
    pub fn identity(self) -> (r: CpuInstructionIdentity)
        ensures
            r == self.identity,
    {
        self.identity
    }

    pub fn rt(self) -> (r: u8)
        ensures
            r == self.rt,
    {
        self.rt
    }

    pub fn rs_value(self) -> (r: u64)
        ensures
            r == self.rs_value,
    {
        self.rs_value
    }

    pub fn immediate_u16(self) -> (r: u16)
        ensures
            r == self.immediate_u16,
    {
        self.immediate_u16
    }

    pub fn immediate_value(self) -> (r: u64)
        ensures
            r == self.immediate_value,
    {
        self.immediate_value
    }
}

#[derive(Debug, Clone, Copy, PartialEq, Eq, Structural)]
pub enum CpuImmediateTrappingIntegerExecutionOutcome {
    Executed(CpuImmediateTrappingIntegerExecutedInstruction),
    Overflow(CpuImmediateTrappingIntegerOverflow),
}

impl CpuImmediateTrappingIntegerExecutionOutcome {
    pub fn identity(self) -> (r: CpuInstructionIdentity)
        ensures
            r == (match self {
                CpuImmediateTrappingIntegerExecutionOutcome::Executed(e) => e.identity,
                CpuImmediateTrappingIntegerExecutionOutcome::Overflow(o) => o.identity,
            }),
    {
        match self {
            CpuImmediateTrappingIntegerExecutionOutcome::Executed(e) => e.identity(),
            CpuImmediateTrappingIntegerExecutionOutcome::Overflow(o) => o.identity(),
        }
    }

    pub fn is_executed(self) -> (r: bool)
        ensures
            r == self is Executed,
    {
        match self {
            CpuImmediateTrappingIntegerExecutionOutcome::Executed(_) => true,
            CpuImmediateTrappingIntegerExecutionOutcome::Overflow(_) => false,
        }
    }

    pub fn is_overflow(self) -> (r: bool)
        ensures
            r == self is Overflow,
    {
        match self {
            CpuImmediateTrappingIntegerExecutionOutcome::Executed(_) => false,
            CpuImmediateTrappingIntegerExecutionOutcome::Overflow(_) => true,
        }
    }
}

#[derive(Debug, Clone, Copy, PartialEq, Eq, Structural)]
pub enum CpuImmediateTrappingIntegerExecutionError {
    UnsupportedIdentity(CpuInstructionIdentity),
    RegisterIndex(CpuRegisterIndexError),
}

#[derive(Debug, Clone, Copy, PartialEq, Eq, Structural)]
pub struct CpuImmediateNonTrappingIntegerExecutedInstruction {
    pub identity: CpuInstructionIdentity,
}

impl CpuImmediateNonTrappingIntegerExecutedInstruction {
    pub fn identity(self) -> (r: CpuInstructionIdentity)
        ensures
            r == self.identity,
    {
        self.identity
    }
}

#[derive(Debug, Clone, Copy, PartialEq, Eq, Structural)]
pub enum CpuImmediateNonTrappingIntegerExecutionError {
    UnsupportedIdentity(CpuInstructionIdentity),
    RegisterIndex(CpuRegisterIndexError),
}

#[derive(Debug, Clone, Copy, PartialEq, Eq, Structural)]
pub struct CpuImmediateComparisonExecutedInstruction {
    pub identity: CpuInstructionIdentity,
}

impl CpuImmediateComparisonExecutedInstruction {
    pub fn identity(self) -> (r: CpuInstructionIdentity)
        ensures
            r == self.identity,
    {
        self.identity
    }
}

#[derive(Debug, Clone, Copy, PartialEq, Eq, Structural)]
pub enum CpuImmediateComparisonExecutionError {
    UnsupportedIdentity(CpuInstructionIdentity),
    RegisterIndex(CpuRegisterIndexError),
}

#[derive(Debug, Clone, Copy, PartialEq, Eq, Structural)]
pub struct CpuImmediateBitwiseLogicalExecutedInstruction {
    pub identity: CpuInstructionIdentity,
}

impl CpuImmediateBitwiseLogicalExecutedInstruction {
    pub fn identity(self) -> (r: CpuInstructionIdentity)
        ensures
            r == self.identity,
    {
        self.identity
    }
}

#[derive(Debug, Clone, Copy, PartialEq, Eq, Structural)]
pub enum CpuImmediateBitwiseLogicalExecutionError {
    UnsupportedIdentity(CpuInstructionIdentity),
    RegisterIndex(CpuRegisterIndexError),
}

#[derive(Debug, Clone, Copy, PartialEq, Eq, Structural)]
pub struct CpuUpperImmediateExecutedInstruction {
    pub identity: CpuInstructionIdentity,
}

impl CpuUpperImmediateExecutedInstruction {
    pub fn identity(self) -> (r: CpuInstructionIdentity)
        ensures
            r == self.identity,
    {
        self.identity
    }
}

#[derive(Debug, Clone, Copy, PartialEq, Eq, Structural)]
pub enum CpuUpperImmediateExecutionError {
    UnsupportedIdentity(CpuInstructionIdentity),
    RegisterIndex(CpuRegisterIndexError),
}

impl Cpu {
    /// Executes a SPECIAL shift: rd receives the shifted rt (word shifts sign-extend their
    /// 32-bit result); sources are read before rd is written.
    pub fn execute_special_shift_instruction(
        &mut self,
        identity: CpuInstructionIdentity,
        instruction: CpuInstructionFields,
    ) -> (r: Result<CpuSpecialShiftExecutedInstruction, CpuSpecialShiftExecutionError>)
        requires
            instruction.wf(),
        ensures
            match spec_special_shift_value(
                identity,
                spec_rs_value(old(self)@, instruction),
                spec_rt_value(old(self)@, instruction),
                instruction.spec_sa(),
            ) {
                None => r == Err::<
                    CpuSpecialShiftExecutedInstruction,
                    CpuSpecialShiftExecutionError,
                >(CpuSpecialShiftExecutionError::UnsupportedIdentity(identity))
                    && final(self)@ == old(self)@,
                Some(v) => r == Ok::<
                    CpuSpecialShiftExecutedInstruction,
                    CpuSpecialShiftExecutionError,
                >(CpuSpecialShiftExecutedInstruction { identity }) && final(self)@
                    == spec_write_gpr(old(self)@, instruction.spec_rd() as int, v),
            },
    {
        let rs_index = instruction.rs();
        let rt_index = instruction.rt();
        let sa = instruction.sa();
        let value = match identity {
            CpuInstructionIdentity::SpecialSll => sign_extend_u32_to_cpu_value(
                read_gpr_word(self, rt_index) << sa,
            ),
            CpuInstructionIdentity::SpecialSrl => sign_extend_u32_to_cpu_value(
                read_gpr_word(self, rt_index) >> sa,
            ),
            CpuInstructionIdentity::SpecialSra => sign_extend_u32_to_cpu_value(
                arithmetic_shift_right_u32(read_gpr_word(self, rt_index), sa),
            ),
            CpuInstructionIdentity::SpecialSllv => {
                let amount = variable_shift_amount_u32(read_gpr_word(self, rs_index));
                sign_extend_u32_to_cpu_value(read_gpr_word(self, rt_index) << amount)
            },
            CpuInstructionIdentity::SpecialSrlv => {
                let amount = variable_shift_amount_u32(read_gpr_word(self, rs_index));
                sign_extend_u32_to_cpu_value(read_gpr_word(self, rt_index) >> amount)
            },
            CpuInstructionIdentity::SpecialSrav => {
                let amount = variable_shift_amount_u32(read_gpr_word(self, rs_index));
                sign_extend_u32_to_cpu_value(
                    arithmetic_shift_right_u32(read_gpr_word(self, rt_index), amount),
                )
            },
            CpuInstructionIdentity::SpecialDsll => read_gpr_value(self, rt_index) << sa,
            CpuInstructionIdentity::SpecialDsrl => read_gpr_value(self, rt_index) >> sa,
            CpuInstructionIdentity::SpecialDsra => arithmetic_shift_right_cpu_value(
                read_gpr_value(self, rt_index),
                sa,
            ),
            CpuInstructionIdentity::SpecialDsll32 => {
                let amount = sa + 32;
                read_gpr_value(self, rt_index) << amount
            },
            CpuInstructionIdentity::SpecialDsrl32 => {
                let amount = sa + 32;
                read_gpr_value(self, rt_index) >> amount
            },
            CpuInstructionIdentity::SpecialDsra32 => {
                let amount = sa + 32;
                arithmetic_shift_right_cpu_value(read_gpr_value(self, rt_index), amount)
            },
            CpuInstructionIdentity::SpecialDsllv => {
                let amount = variable_shift_amount_cpu_value(read_gpr_value(self, rs_index));
                read_gpr_value(self, rt_index) << amount
            },
            CpuInstructionIdentity::SpecialDsrlv => {
                let amount = variable_shift_amount_cpu_value(read_gpr_value(self, rs_index));
                read_gpr_value(self, rt_index) >> amount
            },
            CpuInstructionIdentity::SpecialDsrav => {
                let amount = variable_shift_amount_cpu_value(read_gpr_value(self, rs_index));
                arithmetic_shift_right_cpu_value(read_gpr_value(self, rt_index), amount)
            },
            _ => {
                return Err(CpuSpecialShiftExecutionError::UnsupportedIdentity(identity));
            },
        };
        match self.set_gpr(instruction.rd() as usize, value) {
            Ok(()) => {},
            Err(error) => {
                return Err(CpuSpecialShiftExecutionError::RegisterIndex(error));
            },
        }
        Ok(CpuSpecialShiftExecutedInstruction { identity })
    }

    /// Executes AND, OR, XOR or NOR on full 64-bit values.
    pub fn execute_special_bitwise_logical_instruction(
        &mut self,
        identity: CpuInstructionIdentity,
        instruction: CpuInstructionFields,
    ) -> (r: Result<
        CpuSpecialBitwiseLogicalExecutedInstruction,
        CpuSpecialBitwiseLogicalExecutionError,
    >)
        requires
            instruction.wf(),
        ensures
            match spec_special_bitwise_logical_value(
                identity,
                spec_rs_value(old(self)@, instruction),
                spec_rt_value(old(self)@, instruction),
            ) {
                None => r == Err::<
                    CpuSpecialBitwiseLogicalExecutedInstruction,
                    CpuSpecialBitwiseLogicalExecutionError,
                >(CpuSpecialBitwiseLogicalExecutionError::UnsupportedIdentity(identity))
                    && final(self)@ == old(self)@,
                Some(v) => r == Ok::<
                    CpuSpecialBitwiseLogicalExecutedInstruction,
                    CpuSpecialBitwiseLogicalExecutionError,
                >(CpuSpecialBitwiseLogicalExecutedInstruction { identity }) && final(self)@
                    == spec_write_gpr(old(self)@, instruction.spec_rd() as int, v),
            },
    {
        let rs = read_gpr_value(self, instruction.rs());
        let rt = read_gpr_value(self, instruction.rt());
        let value = match identity {
            CpuInstructionIdentity::SpecialAnd => rs & rt,
            CpuInstructionIdentity::SpecialOr => rs | rt,
            CpuInstructionIdentity::SpecialXor => rs ^ rt,
            CpuInstructionIdentity::SpecialNor => !(rs | rt),
            _ => {
                return Err(CpuSpecialBitwiseLogicalExecutionError::UnsupportedIdentity(identity));
            },
        };
        match self.set_gpr(instruction.rd() as usize, value) {
            Ok(()) => {},
            Err(error) => {
                return Err(CpuSpecialBitwiseLogicalExecutionError::RegisterIndex(error));
            },
        }
        Ok(CpuSpecialBitwiseLogicalExecutedInstruction { identity })
    }

    /// Executes MFHI, MTHI, MFLO or MTLO.
    pub fn execute_special_hi_lo_transfer_instruction(
        &mut self,
        identity: CpuInstructionIdentity,
        instruction: CpuInstructionFields,
    ) -> (r: Result<
        CpuSpecialHiLoTransferExecutedInstruction,
        CpuSpecialHiLoTransferExecutionError,
    >)
        requires
            instruction.wf(),
        ensures
            match identity {
                CpuInstructionIdentity::SpecialMfhi => final(self)@ == spec_write_gpr(
                    old(self)@,
                    instruction.spec_rd() as int,
                    old(self)@.hi,
                ),
                CpuInstructionIdentity::SpecialMthi => final(self)@ == (CpuState {
                    hi: spec_rs_value(old(self)@, instruction),
                    ..old(self)@
                }),
                CpuInstructionIdentity::SpecialMflo => final(self)@ == spec_write_gpr(
                    old(self)@,
                    instruction.spec_rd() as int,
                    old(self)@.lo,
                ),
                CpuInstructionIdentity::SpecialMtlo => final(self)@ == (CpuState {
                    lo: spec_rs_value(old(self)@, instruction),
                    ..old(self)@
                }),
                _ => r == Err::<
                    CpuSpecialHiLoTransferExecutedInstruction,
                    CpuSpecialHiLoTransferExecutionError,
                >(CpuSpecialHiLoTransferExecutionError::UnsupportedIdentity(identity))
                    && final(self)@ == old(self)@,
            },
            spec_is_hi_lo_transfer(identity) ==> r == Ok::<
                CpuSpecialHiLoTransferExecutedInstruction,
                CpuSpecialHiLoTransferExecutionError,
            >(CpuSpecialHiLoTransferExecutedInstruction { identity }),
    {
        match identity {
            CpuInstructionIdentity::SpecialMfhi => {
                let hi = self.hi();
                match self.set_gpr(instruction.rd() as usize, hi) {
                    Ok(()) => {},
                    Err(error) => {
                        return Err(CpuSpecialHiLoTransferExecutionError::RegisterIndex(error));
                    },
                }
            },
            CpuInstructionIdentity::SpecialMthi => {
                let value = read_gpr_value(self, instruction.rs());
                self.stage_hi(value);
            },
            CpuInstructionIdentity::SpecialMflo => {
                let lo = self.lo();
                match self.set_gpr(instruction.rd() as usize, lo) {
                    Ok(()) => {},
                    Err(error) => {
                        return Err(CpuSpecialHiLoTransferExecutionError::RegisterIndex(error));
                    },
                }
            },
            CpuInstructionIdentity::SpecialMtlo => {
                let value = read_gpr_value(self, instruction.rs());
                self.stage_lo(value);
            },
            _ => {
                return Err(CpuSpecialHiLoTransferExecutionError::UnsupportedIdentity(identity));
            },
        }
        Ok(CpuSpecialHiLoTransferExecutedInstruction { identity })
    }

    /// Executes ADDU, SUBU, DADDU, DSUBU, SLT or SLTU: arithmetic wraps and never traps.
    pub fn execute_special_non_trapping_integer_instruction(
        &mut self,
        identity: CpuInstructionIdentity,
        instruction: CpuInstructionFields,
    ) -> (r: Result<
        CpuSpecialNonTrappingIntegerExecutedInstruction,
        CpuSpecialNonTrappingIntegerExecutionError,
    >)
        requires
            instruction.wf(),
        ensures
            match spec_special_non_trapping_integer_value(
                identity,
                spec_rs_value(old(self)@, instruction),
                spec_rt_value(old(self)@, instruction),
            ) {
                None => r == Err::<
                    CpuSpecialNonTrappingIntegerExecutedInstruction,
                    CpuSpecialNonTrappingIntegerExecutionError,
                >(CpuSpecialNonTrappingIntegerExecutionError::UnsupportedIdentity(identity))
                    && final(self)@ == old(self)@,
                Some(v) => r == Ok::<
                    CpuSpecialNonTrappingIntegerExecutedInstruction,
                    CpuSpecialNonTrappingIntegerExecutionError,
                >(CpuSpecialNonTrappingIntegerExecutedInstruction { identity }) && final(self)@
                    == spec_write_gpr(old(self)@, instruction.spec_rd() as int, v),
            },
    {
        let rs = read_gpr_value(self, instruction.rs());
        let rt = read_gpr_value(self, instruction.rt());
        proof {
            crate::bytes::lemma_u64_word_split(rs);
            crate::bytes::lemma_u64_word_split(rt);
        }
        let value = match identity {
            CpuInstructionIdentity::SpecialAddu => sign_extend_u32_to_cpu_value(
                (rs as u32).wrapping_add(rt as u32),
            ),
            CpuInstructionIdentity::SpecialSubu => sign_extend_u32_to_cpu_value(
                (rs as u32).wrapping_sub(rt as u32),
            ),
            CpuInstructionIdentity::SpecialDaddu => rs.wrapping_add(rt),
            CpuInstructionIdentity::SpecialDsubu => rs.wrapping_sub(rt),
            CpuInstructionIdentity::SpecialSlt => cpu_value_from_bool(
                signed_cpu_value_less_than(rs, rt),
            ),
            CpuInstructionIdentity::SpecialSltu => cpu_value_from_bool(rs < rt),
            _ => {
                return Err(
                    CpuSpecialNonTrappingIntegerExecutionError::UnsupportedIdentity(identity),
                );
            },
        };
        match self.set_gpr(instruction.rd() as usize, value) {
            Ok(()) => {},
            Err(error) => {
                return Err(CpuSpecialNonTrappingIntegerExecutionError::RegisterIndex(error));
            },
        }
        Ok(CpuSpecialNonTrappingIntegerExecutedInstruction { identity })
    }
}

/// Whether `identity` is MFHI, MTHI, MFLO or MTLO.
pub open spec fn spec_is_hi_lo_transfer(identity: CpuInstructionIdentity) -> bool {
    ||| identity is SpecialMfhi
    ||| identity is SpecialMthi
    ||| identity is SpecialMflo
    ||| identity is SpecialMtlo
}

impl Cpu {
    /// Executes ADD, SUB, DADD or DSUB. An overflow writes nothing and is reported with
    /// the operands read.
    pub fn execute_special_trapping_integer_instruction(
        &mut self,
        identity: CpuInstructionIdentity,
        instruction: CpuInstructionFields,
    ) -> (r: Result<
        CpuSpecialTrappingIntegerExecutionOutcome,
        CpuSpecialTrappingIntegerExecutionError,
    >)
        requires
            instruction.wf(),
        ensures
            ({
                let rs = spec_rs_value(old(self)@, instruction);
                let rt = spec_rt_value(old(self)@, instruction);
                if !spec_is_special_trapping_integer(identity) {
                    r == Err::<
                        CpuSpecialTrappingIntegerExecutionOutcome,
                        CpuSpecialTrappingIntegerExecutionError,
                    >(CpuSpecialTrappingIntegerExecutionError::UnsupportedIdentity(identity))
                        && final(self)@ == old(self)@
                } else if spec_special_trapping_integer_overflows(identity, rs, rt) {
                    r == Ok::<
                        CpuSpecialTrappingIntegerExecutionOutcome,
                        CpuSpecialTrappingIntegerExecutionError,
                    >(
                        CpuSpecialTrappingIntegerExecutionOutcome::Overflow(
                            CpuSpecialTrappingIntegerOverflow {
                                identity,
                                rd: instruction.spec_rd(),
                                rs_value: rs,
                                rt_value: rt,
                            },
                        ),
                    ) && final(self)@ == old(self)@
                } else {
                    r == Ok::<
                        CpuSpecialTrappingIntegerExecutionOutcome,
                        CpuSpecialTrappingIntegerExecutionError,
                    >(
                        CpuSpecialTrappingIntegerExecutionOutcome::Executed(
                            CpuSpecialTrappingIntegerExecutedInstruction { identity },
                        ),
                    ) && final(self)@ == spec_write_gpr(
                        old(self)@,
                        instruction.spec_rd() as int,
                        spec_special_trapping_integer_value(identity, rs, rt),
                    )
                }
            }),
    {
        let rs = read_gpr_value(self, instruction.rs());
        let rt = read_gpr_value(self, instruction.rt());
        proof {
            crate::bytes::lemma_u64_word_split(rs);
            crate::bytes::lemma_u64_word_split(rt);
        }
        let overflow = CpuSpecialTrappingIntegerOverflow {
            identity,
            rd: instruction.rd(),
            rs_value: rs,
            rt_value: rt,
        };
        let value = match identity {
            CpuInstructionIdentity::SpecialAdd => {
                let value = signed_word_value(rs as u32) + signed_word_value(rt as u32);
                if signed_i32_result_out_of_range(value) {
                    return Ok(CpuSpecialTrappingIntegerExecutionOutcome::Overflow(overflow));
                }
                sign_extend_u32_to_cpu_value(u32_bits_from_i32_value(value))
            },
            CpuInstructionIdentity::SpecialSub => {
                let value = signed_word_value(rs as u32) - signed_word_value(rt as u32);
                if signed_i32_result_out_of_range(value) {
                    return Ok(CpuSpecialTrappingIntegerExecutionOutcome::Overflow(overflow));
                }
                sign_extend_u32_to_cpu_value(u32_bits_from_i32_value(value))
            },
            CpuInstructionIdentity::SpecialDadd => {
                let value = rs.wrapping_add(rt);
                if signed_cpu_add_overflows(rs, rt, value) {
                    return Ok(CpuSpecialTrappingIntegerExecutionOutcome::Overflow(overflow));
                }
                proof {
                    lemma_doubleword_bits_of_signed_sum(rs, rt);
                }
                value
            },
            CpuInstructionIdentity::SpecialDsub => {
                let value = rs.wrapping_sub(rt);
                if signed_cpu_sub_overflows(rs, rt, value) {
                    return Ok(CpuSpecialTrappingIntegerExecutionOutcome::Overflow(overflow));
                }
                proof {
                    lemma_doubleword_bits_of_signed_sum(rs, rt);
                }
                value
            },
            _ => {
                return Err(CpuSpecialTrappingIntegerExecutionError::UnsupportedIdentity(identity));
            },
        };
        match self.set_gpr(instruction.rd() as usize, value) {
            Ok(()) => {},
            Err(error) => {
                return Err(CpuSpecialTrappingIntegerExecutionError::RegisterIndex(error));
            },
        }
        Ok(
            CpuSpecialTrappingIntegerExecutionOutcome::Executed(
                CpuSpecialTrappingIntegerExecutedInstruction { identity },
            ),
        )
    }

    /// Executes ADDI or DADDI. An overflow writes nothing and is reported with the
    /// operands read.
    pub fn execute_immediate_trapping_integer_instruction(
        &mut self,
        identity: CpuInstructionIdentity,
        instruction: CpuInstructionFields,
    ) -> (r: Result<
        CpuImmediateTrappingIntegerExecutionOutcome,
        CpuImmediateTrappingIntegerExecutionError,
    >)
        requires
            instruction.wf(),
        ensures
            ({
                let rs = spec_rs_value(old(self)@, instruction);
                let imm = instruction.spec_immediate();
                if !(identity is Addi || identity is Daddi) {
                    r == Err::<
                        CpuImmediateTrappingIntegerExecutionOutcome,
                        CpuImmediateTrappingIntegerExecutionError,
                    >(CpuImmediateTrappingIntegerExecutionError::UnsupportedIdentity(identity))
                        && final(self)@ == old(self)@
                } else if spec_immediate_trapping_integer_overflows(identity, rs, imm) {
                    r == Ok::<
                        CpuImmediateTrappingIntegerExecutionOutcome,
                        CpuImmediateTrappingIntegerExecutionError,
                    >(
                        CpuImmediateTrappingIntegerExecutionOutcome::Overflow(
                            CpuImmediateTrappingIntegerOverflow {
                                identity,
                                rt: instruction.spec_rt(),
                                rs_value: rs,
                                immediate_u16: imm,
                                immediate_value: spec_sext16(imm),
                            },
                        ),
                    ) && final(self)@ == old(self)@
                } else {
                    r == Ok::<
                        CpuImmediateTrappingIntegerExecutionOutcome,
                        CpuImmediateTrappingIntegerExecutionError,
                    >(
                        CpuImmediateTrappingIntegerExecutionOutcome::Executed(
                            CpuImmediateTrappingIntegerExecutedInstruction { identity },
                        ),
                    ) && final(self)@ == spec_write_gpr(
                        old(self)@,
                        instruction.spec_rt() as int,
                        spec_immediate_trapping_integer_value(identity, rs, imm),
                    )
                }
            }),
    {
        let rs = read_gpr_value(self, instruction.rs());
        let immediate_u16 = instruction.immediate_u16();
        let immediate_value = sign_extend_u16_to_cpu_value(immediate_u16);
        proof {
            crate::bytes::lemma_u64_word_split(rs);
        }
        let overflow = CpuImmediateTrappingIntegerOverflow {
            identity,
            rt: instruction.rt(),
            rs_value: rs,
            immediate_u16,
            immediate_value,
        };
        let value = match identity {
            CpuInstructionIdentity::Addi => {
                let value = signed_word_value(rs as u32) + signed_halfword_value(immediate_u16);
                if signed_i32_result_out_of_range(value) {
                    return Ok(CpuImmediateTrappingIntegerExecutionOutcome::Overflow(overflow));
                }
                sign_extend_u32_to_cpu_value(u32_bits_from_i32_value(value))
            },
            CpuInstructionIdentity::Daddi => {
                let value = rs.wrapping_add(immediate_value);
                if signed_cpu_add_overflows(rs, immediate_value, value) {
                    return Ok(CpuImmediateTrappingIntegerExecutionOutcome::Overflow(overflow));
                }
                proof {
                    lemma_doubleword_bits_of_signed_sum(rs, immediate_value);
                    lemma_signed_sext16(immediate_u16);
                }
                value
            },
            _ => {
                return Err(
                    CpuImmediateTrappingIntegerExecutionError::UnsupportedIdentity(identity),
                );
            },
        };
        proof {
            lemma_signed_sext16(immediate_u16);
        }
        match self.set_gpr(instruction.rt() as usize, value) {
            Ok(()) => {},
            Err(error) => {
                return Err(CpuImmediateTrappingIntegerExecutionError::RegisterIndex(error));
            },
        }
        Ok(
            CpuImmediateTrappingIntegerExecutionOutcome::Executed(
                CpuImmediateTrappingIntegerExecutedInstruction { identity },
            ),
        )
    }

    /// Executes ADDIU or DADDIU: wrapping addition that never traps.
    pub fn execute_immediate_non_trapping_integer_instruction(
        &mut self,
        identity: CpuInstructionIdentity,
        instruction: CpuInstructionFields,
    ) -> (r: Result<
        CpuImmediateNonTrappingIntegerExecutedInstruction,
        CpuImmediateNonTrappingIntegerExecutionError,
    >)
        requires
            instruction.wf(),
        ensures
            match spec_immediate_non_trapping_integer_value(
                identity,
                spec_rs_value(old(self)@, instruction),
                instruction.spec_immediate(),
            ) {
                None => r == Err::<
                    CpuImmediateNonTrappingIntegerExecutedInstruction,
                    CpuImmediateNonTrappingIntegerExecutionError,
                >(CpuImmediateNonTrappingIntegerExecutionError::UnsupportedIdentity(identity))
                    && final(self)@ == old(self)@,
                Some(v) => r == Ok::<
                    CpuImmediateNonTrappingIntegerExecutedInstruction,
                    CpuImmediateNonTrappingIntegerExecutionError,
                >(CpuImmediateNonTrappingIntegerExecutedInstruction { identity })
                    && final(self)@ == spec_write_gpr(
                    old(self)@,
                    instruction.spec_rt() as int,
                    v,
                ),
            },
    {
        let rs = read_gpr_value(self, instruction.rs());
        let immediate_u16 = instruction.immediate_u16();
        proof {
            crate::bytes::lemma_u64_word_split(rs);
        }
        let value = match identity {
            CpuInstructionIdentity::Addiu => sign_extend_u32_to_cpu_value(
                (rs as u32).wrapping_add(sign_extend_u16_to_u32(immediate_u16)),
            ),
            CpuInstructionIdentity::Daddiu => rs.wrapping_add(
                sign_extend_u16_to_cpu_value(immediate_u16),
            ),
            _ => {
                return Err(
                    CpuImmediateNonTrappingIntegerExecutionError::UnsupportedIdentity(identity),
                );
            },
        };
        match self.set_gpr(instruction.rt() as usize, value) {
            Ok(()) => {},
            Err(error) => {
                return Err(CpuImmediateNonTrappingIntegerExecutionError::RegisterIndex(error));
            },
        }
        Ok(CpuImmediateNonTrappingIntegerExecutedInstruction { identity })
    }

    /// Executes SLTI or SLTIU.
    pub fn execute_immediate_comparison_instruction(
        &mut self,
        identity: CpuInstructionIdentity,
        instruction: CpuInstructionFields,
    ) -> (r: Result<
        CpuImmediateComparisonExecutedInstruction,
        CpuImmediateComparisonExecutionError,
    >)
        requires
            instruction.wf(),
        ensures
            match spec_immediate_comparison_value(
                identity,
                spec_rs_value(old(self)@, instruction),
                instruction.spec_immediate(),
            ) {
                None => r == Err::<
                    CpuImmediateComparisonExecutedInstruction,
                    CpuImmediateComparisonExecutionError,
                >(CpuImmediateComparisonExecutionError::UnsupportedIdentity(identity))
                    && final(self)@ == old(self)@,
                Some(v) => r == Ok::<
                    CpuImmediateComparisonExecutedInstruction,
                    CpuImmediateComparisonExecutionError,
                >(CpuImmediateComparisonExecutedInstruction { identity }) && final(self)@
                    == spec_write_gpr(old(self)@, instruction.spec_rt() as int, v),
            },
    {
        let rs = read_gpr_value(self, instruction.rs());
        let immediate_value = sign_extend_u16_to_cpu_value(instruction.immediate_u16());
        let value = match identity {
            CpuInstructionIdentity::Slti => cpu_value_from_bool(
                signed_cpu_value_less_than(rs, immediate_value),
            ),
            CpuInstructionIdentity::Sltiu => cpu_value_from_bool(rs < immediate_value),
            _ => {
                return Err(CpuImmediateComparisonExecutionError::UnsupportedIdentity(identity));
            },
        };
        match self.set_gpr(instruction.rt() as usize, value) {
            Ok(()) => {},
            Err(error) => {
                return Err(CpuImmediateComparisonExecutionError::RegisterIndex(error));
            },
        }
        Ok(CpuImmediateComparisonExecutedInstruction { identity })
    }

    /// Executes ANDI, ORI or XORI with the zero-extended immediate.
    pub fn execute_immediate_bitwise_logical_instruction(
        &mut self,
        identity: CpuInstructionIdentity,
        instruction: CpuInstructionFields,
    ) -> (r: Result<
        CpuImmediateBitwiseLogicalExecutedInstruction,
        CpuImmediateBitwiseLogicalExecutionError,
    >)
        requires
            instruction.wf(),
        ensures
            match spec_immediate_bitwise_logical_value(
                identity,
                spec_rs_value(old(self)@, instruction),
                instruction.spec_immediate(),
            ) {
                None => r == Err::<
                    CpuImmediateBitwiseLogicalExecutedInstruction,
                    CpuImmediateBitwiseLogicalExecutionError,
                >(CpuImmediateBitwiseLogicalExecutionError::UnsupportedIdentity(identity))
                    && final(self)@ == old(self)@,
                Some(v) => r == Ok::<
                    CpuImmediateBitwiseLogicalExecutedInstruction,
                    CpuImmediateBitwiseLogicalExecutionError,
                >(CpuImmediateBitwiseLogicalExecutedInstruction { identity }) && final(self)@
                    == spec_write_gpr(old(self)@, instruction.spec_rt() as int, v),
            },
    {
        let rs = read_gpr_value(self, instruction.rs());
        let immediate_value = instruction.immediate_u16() as u64;
        let value = match identity {
            CpuInstructionIdentity::Andi => rs & immediate_value,
            CpuInstructionIdentity::Ori => rs | immediate_value,
            CpuInstructionIdentity::Xori => rs ^ immediate_value,
            _ => {
                return Err(
                    CpuImmediateBitwiseLogicalExecutionError::UnsupportedIdentity(identity),
                );
            },
        };
        match self.set_gpr(instruction.rt() as usize, value) {
            Ok(()) => {},
            Err(error) => {
                return Err(CpuImmediateBitwiseLogicalExecutionError::RegisterIndex(error));
            },
        }
        Ok(CpuImmediateBitwiseLogicalExecutedInstruction { identity })
    }

    /// Executes LUI; the rs field is ignored.
    pub fn execute_upper_immediate_instruction(
        &mut self,
        identity: CpuInstructionIdentity,
        instruction: CpuInstructionFields,
    ) -> (r: Result<CpuUpperImmediateExecutedInstruction, CpuUpperImmediateExecutionError>)
        requires
            instruction.wf(),
        ensures
            match spec_upper_immediate_value(identity, instruction.spec_immediate()) {
                None => r == Err::<
                    CpuUpperImmediateExecutedInstruction,
                    CpuUpperImmediateExecutionError,
                >(CpuUpperImmediateExecutionError::UnsupportedIdentity(identity))
                    && final(self)@ == old(self)@,
                Some(v) => r == Ok::<
                    CpuUpperImmediateExecutedInstruction,
                    CpuUpperImmediateExecutionError,
                >(CpuUpperImmediateExecutedInstruction { identity }) && final(self)@
                    == spec_write_gpr(old(self)@, instruction.spec_rt() as int, v),
            },
    {
        let value = match identity {
            CpuInstructionIdentity::Lui => {
                let imm = instruction.immediate_u16() as u32;
                sign_extend_u32_to_cpu_value(imm * 0x1_0000)
            },
            _ => {
                return Err(CpuUpperImmediateExecutionError::UnsupportedIdentity(identity));
            },
        };
        match self.set_gpr(instruction.rt() as usize, value) {
            Ok(()) => {},
            Err(error) => {
                return Err(CpuUpperImmediateExecutionError::RegisterIndex(error));
            },
        }
        Ok(CpuUpperImmediateExecutedInstruction { identity })
    }
}

/// The 64-bit encoding of a signed sum or difference agrees with the wrapped unsigned one.
proof fn lemma_doubleword_bits_of_signed_sum(a: u64, b: u64)
    ensures
        spec_doubleword_bits(spec_signed64(a) + spec_signed64(b)) as int == (a as int + b as int)
            % 0x1_0000_0000_0000_0000,
        spec_doubleword_bits(spec_signed64(a) - spec_signed64(b)) as int == (a as int - b as int)
            % 0x1_0000_0000_0000_0000,
{
    let m: int = 0x1_0000_0000_0000_0000;
    let sa = spec_signed64(a);
    let sb = spec_signed64(b);
    assert(sa == a || sa == a - m);
    assert(sb == b || sb == b - m);
    vstd::arithmetic::div_mod::lemma_mod_add_multiples_vanish(a + b, m);
    vstd::arithmetic::div_mod::lemma_mod_sub_multiples_vanish(a + b, m);
    vstd::arithmetic::div_mod::lemma_mod_add_multiples_vanish(a - b, m);
    vstd::arithmetic::div_mod::lemma_mod_sub_multiples_vanish(a - b, m);
    vstd::arithmetic::div_mod::lemma_mod_sub_multiples_vanish(a + b - m, m);
    vstd::arithmetic::div_mod::lemma_mod_add_multiples_vanish(a - b - m, m);
}

/// The signed value of a sign-extended immediate is the immediate's signed value.
proof fn lemma_signed_sext16(h: u16)
    ensures
        spec_signed64(spec_sext16(h)) == spec_signed16(h),
        spec_signed32(spec_sext16_word(h)) == spec_signed16(h),
{
}

// ---------------------------------------------------------------------------------------
// Multiply and divide.
// ---------------------------------------------------------------------------------------
/// MULTU: the 64-bit product of the low words; HI gets its upper and LO its lower half,
/// each sign-extended.
pub open spec fn spec_multu_hi_lo(rs: u64, rt: u64) -> (u64, u64) {
    let product = spec_word(rs) as int * spec_word(rt) as int;
    (
        spec_sext32((product / 0x1_0000_0000) as u32),
        spec_sext32((product % 0x1_0000_0000) as u32),
    )
}

/// DMULTU: the 128-bit product; HI gets its upper and LO its lower doubleword.
pub open spec fn spec_dmultu_hi_lo(rs: u64, rt: u64) -> (u64, u64) {
    let product = rs as int * rt as int;
    (
        (product / 0x1_0000_0000_0000_0000) as u64,
        (product % 0x1_0000_0000_0000_0000) as u64,
    )
}

/// The magnitude of an integer.
pub open spec fn spec_abs(x: int) -> int {
    if x < 0 {
        -x
    } else {
        x
    }
}

/// Quotient of signed division rounded toward zero.
pub open spec fn spec_truncated_quotient(a: int, b: int) -> int {
    let q = spec_abs(a) / spec_abs(b);
    if (a < 0) == (b < 0) {
        q
    } else {
        -q
    }
}

/// Remainder of signed division rounded toward zero: it takes the sign of the dividend.
pub open spec fn spec_truncated_remainder(a: int, b: int) -> int {
    let r = spec_abs(a) % spec_abs(b);
    if a < 0 {
        -r
    } else {
        r
    }
}

/// DIV of the low words as signed values: (quotient, remainder). A zero divisor gives
/// quotient 1 for a negative dividend and -1 otherwise, with the dividend as remainder;
/// the most negative word divided by -1 gives itself with remainder 0.
pub open spec fn spec_div_word_results(rs: u64, rt: u64) -> (int, int) {
    let a = spec_signed32(spec_word(rs));
    let b = spec_signed32(spec_word(rt));
    if b == 0 {
        (
            if a < 0 {
                1
            } else {
                -1
            },
            a,
        )
    } else if a == -0x8000_0000 && b == -1 {
        (-0x8000_0000, 0)
    } else {
        (spec_truncated_quotient(a, b), spec_truncated_remainder(a, b))
    }
}

/// DIV: HI gets the remainder and LO the quotient, each sign-extended from 32 bits.
pub open spec fn spec_div_hi_lo(rs: u64, rt: u64) -> (u64, u64) {
    let (q, r) = spec_div_word_results(rs, rt);
    (spec_sext32(spec_word_bits(r)), spec_sext32(spec_word_bits(q)))
}

/// DDIVU: HI gets the remainder and LO the quotient; a zero divisor leaves the dividend
/// in HI and all ones in LO.
pub open spec fn spec_ddivu_hi_lo(rs: u64, rt: u64) -> (u64, u64) {
    if rt == 0 {
        (rs, 0xffff_ffff_ffff_ffff)
    } else {
        (rs % rt, rs / rt)
    }
}

fn multiply_unsigned_words(a: u32, b: u32) -> (r: (u64, u64))
    ensures
        r == spec_multu_hi_lo(a as u64, b as u64),
{
    proof {
        assert(a as int * b as int <= 0xffff_ffff * 0xffff_ffff) by (nonlinear_arith)
            requires
                a <= 0xffff_ffff,
                b <= 0xffff_ffff,
        ;
        assert(a as u64 % 0x1_0000_0000 == a);
        assert(b as u64 % 0x1_0000_0000 == b);
    }
    let product = (a as u64) * (b as u64);
    let high = (product / 0x1_0000_0000) as u32;
    let low = (product % 0x1_0000_0000) as u32;
    (sign_extend_u32_to_cpu_value(high), sign_extend_u32_to_cpu_value(low))
}

fn multiply_unsigned_doublewords(a: u64, b: u64) -> (r: (u64, u64))
    ensures
        r == spec_dmultu_hi_lo(a, b),
{
    proof {
        assert(a as int * b as int <= 0xffff_ffff_ffff_ffff * 0xffff_ffff_ffff_ffff)
            by (nonlinear_arith)
            requires
                a <= 0xffff_ffff_ffff_ffff,
                b <= 0xffff_ffff_ffff_ffff,
        ;
    }
    let product = (a as u128) * (b as u128);
    let high = (product / 0x1_0000_0000_0000_0000) as u64;
    let low = (product % 0x1_0000_0000_0000_0000) as u64;
    (high, low)
}

/// The magnitude of a word read as a signed value.
fn word_magnitude(v: u32) -> (r: u32)
    ensures
        r as int == spec_abs(spec_signed32(v)),
{
    if v >= 0x8000_0000 {
        0u32.wrapping_sub(v)
    } else {
        v
    }
}

fn divide_signed_words(a: u32, b: u32) -> (r: (u64, u64))
    ensures
        r == spec_div_hi_lo(a as u64, b as u64),
{
    proof {
        assert(a as u64 % 0x1_0000_0000 == a);
        assert(b as u64 % 0x1_0000_0000 == b);
    }
    let a_negative = a >= 0x8000_0000;
    let b_negative = b >= 0x8000_0000;
    let quotient_bits: u32;
    let remainder_bits: u32;
    if b == 0 {
        quotient_bits = if a_negative {
            1
        } else {
            0xffff_ffff
        };
        remainder_bits = a;
    } else if a == 0x8000_0000 && b == 0xffff_ffff {
        quotient_bits = 0x8000_0000;
        remainder_bits = 0;
    } else {
        let a_magnitude = word_magnitude(a);
        let b_magnitude = word_magnitude(b);
        let quotient_magnitude = a_magnitude / b_magnitude;
        let remainder_magnitude = a_magnitude % b_magnitude;
        quotient_bits = if a_negative != b_negative {
            0u32.wrapping_sub(quotient_magnitude)
        } else {
            quotient_magnitude
        };
        remainder_bits = if a_negative {
            0u32.wrapping_sub(remainder_magnitude)
        } else {
            remainder_magnitude
        };
    }
    (sign_extend_u32_to_cpu_value(remainder_bits), sign_extend_u32_to_cpu_value(quotient_bits))
}

fn divide_unsigned_doublewords(a: u64, b: u64) -> (r: (u64, u64))
    ensures
        r == spec_ddivu_hi_lo(a, b),
{
    if b == 0 {
        (a, 0xffff_ffff_ffff_ffff)
    } else {
        (a % b, a / b)
    }
}

/// Signed division rounded toward zero restores the dividend: divisor times quotient plus
/// remainder, with the remainder smaller than the divisor in magnitude.
pub proof fn lemma_truncated_division_identity(a: int, b: int)
    requires
        b != 0,
    ensures
        a == b * spec_truncated_quotient(a, b) + spec_truncated_remainder(a, b),
        spec_abs(spec_truncated_remainder(a, b)) < spec_abs(b),
{
    let aa = spec_abs(a);
    let ab = spec_abs(b);
    let q = aa / ab;
    let r = aa % ab;
    vstd::arithmetic::div_mod::lemma_fundamental_div_mod(aa, ab);
    vstd::arithmetic::div_mod::lemma_mod_bound(aa, ab);
    assert(aa == ab * q + r);
    if a < 0 && b < 0 {
        assert(a == b * q - r) by (nonlinear_arith)
            requires
                aa == -a,
                ab == -b,
                aa == ab * q + r,
        ;
    } else if a < 0 {
        assert(a == b * (-q) - r) by (nonlinear_arith)
            requires
                aa == -a,
                ab == b,
                aa == ab * q + r,
        ;
    } else if b < 0 {
        assert(a == b * (-q) + r) by (nonlinear_arith)
            requires
                aa == a,
                ab == -b,
                aa == ab * q + r,
        ;
    }
}

// ---------------------------------------------------------------------------------------
// Selection and invocation of the CPU-local executed helpers.
// ---------------------------------------------------------------------------------------
/// The helper family that executes an instruction without leaving the CPU.
#[derive(Debug, Clone, Copy, PartialEq, Eq, Structural)]
pub enum CpuLocalExecutedHelperFamily {
    NoEffectSync,
    SpecialShift,
    SpecialBitwiseLogical,
    SpecialHiLoTransfer,
    SpecialMultiply,
    SpecialDivide,
    SpecialNonTrappingInteger,
    SpecialTrappingInteger,
    ImmediateTrappingInteger,
    ImmediateNonTrappingInteger,
    ImmediateComparison,
    ImmediateBitwiseLogical,
    UpperImmediateLui,
    Cop0Tlb,
    Cop0ExceptionReturn,
}

/// An identity paired with the helper family chosen for it.
#[derive(Debug, Clone, Copy, PartialEq, Eq, Structural)]
pub struct CpuLocalExecutedHelperSelection {
    pub identity: CpuInstructionIdentity,
    pub family: CpuLocalExecutedHelperFamily,
}

impl CpuLocalExecutedHelperSelection {
    pub fn identity(self) -> (r: CpuInstructionIdentity)
        ensures
            r == self.identity,
    {
        self.identity
    }

    pub fn family(self) -> (r: CpuLocalExecutedHelperFamily)
        ensures
            r == self.family,
    {
        self.family
    }
}

/// The family that executes `identity`, if it runs CPU-locally.
pub open spec fn spec_helper_family(identity: CpuInstructionIdentity) -> Option<
    CpuLocalExecutedHelperFamily,
> {
    match identity {
        CpuInstructionIdentity::SpecialSync => Some(CpuLocalExecutedHelperFamily::NoEffectSync),
        CpuInstructionIdentity::SpecialSll
        | CpuInstructionIdentity::SpecialSrl
        | CpuInstructionIdentity::SpecialSra
        | CpuInstructionIdentity::SpecialSllv
        | CpuInstructionIdentity::SpecialSrlv
        | CpuInstructionIdentity::SpecialSrav
        | CpuInstructionIdentity::SpecialDsll
        | CpuInstructionIdentity::SpecialDsrl
        | CpuInstructionIdentity::SpecialDsra
        | CpuInstructionIdentity::SpecialDsll32
        | CpuInstructionIdentity::SpecialDsrl32
        | CpuInstructionIdentity::SpecialDsra32
        | CpuInstructionIdentity::SpecialDsllv
        | CpuInstructionIdentity::SpecialDsrlv
        | CpuInstructionIdentity::SpecialDsrav => Some(CpuLocalExecutedHelperFamily::SpecialShift),
        CpuInstructionIdentity::SpecialAnd
        | CpuInstructionIdentity::SpecialOr
        | CpuInstructionIdentity::SpecialXor
        | CpuInstructionIdentity::SpecialNor => Some(
            CpuLocalExecutedHelperFamily::SpecialBitwiseLogical,
        ),
        CpuInstructionIdentity::SpecialMfhi
        | CpuInstructionIdentity::SpecialMthi
        | CpuInstructionIdentity::SpecialMflo
        | CpuInstructionIdentity::SpecialMtlo => Some(
            CpuLocalExecutedHelperFamily::SpecialHiLoTransfer,
        ),
        CpuInstructionIdentity::SpecialMultu
        | CpuInstructionIdentity::SpecialDmultu => Some(
            CpuLocalExecutedHelperFamily::SpecialMultiply,
        ),
        CpuInstructionIdentity::SpecialDiv
        | CpuInstructionIdentity::SpecialDdivu => Some(CpuLocalExecutedHelperFamily::SpecialDivide),
        CpuInstructionIdentity::SpecialAddu
        | CpuInstructionIdentity::SpecialSubu
        | CpuInstructionIdentity::SpecialDaddu
        | CpuInstructionIdentity::SpecialDsubu
        | CpuInstructionIdentity::SpecialSlt
        | CpuInstructionIdentity::SpecialSltu => Some(
            CpuLocalExecutedHelperFamily::SpecialNonTrappingInteger,
        ),
        CpuInstructionIdentity::SpecialAdd
        | CpuInstructionIdentity::SpecialSub
        | CpuInstructionIdentity::SpecialDadd
        | CpuInstructionIdentity::SpecialDsub => Some(
            CpuLocalExecutedHelperFamily::SpecialTrappingInteger,
        ),
        CpuInstructionIdentity::Addi | CpuInstructionIdentity::Daddi => Some(
            CpuLocalExecutedHelperFamily::ImmediateTrappingInteger,
        ),
        CpuInstructionIdentity::Addiu | CpuInstructionIdentity::Daddiu => Some(
            CpuLocalExecutedHelperFamily::ImmediateNonTrappingInteger,
        ),
        CpuInstructionIdentity::Slti | CpuInstructionIdentity::Sltiu => Some(
            CpuLocalExecutedHelperFamily::ImmediateComparison,
        ),
        CpuInstructionIdentity::Andi
        | CpuInstructionIdentity::Ori
        | CpuInstructionIdentity::Xori => Some(CpuLocalExecutedHelperFamily::ImmediateBitwiseLogical),
        CpuInstructionIdentity::Lui => Some(CpuLocalExecutedHelperFamily::UpperImmediateLui),
        CpuInstructionIdentity::Cop0Tlbr
        | CpuInstructionIdentity::Cop0Tlbwi
        | CpuInstructionIdentity::Cop0Tlbwr
        | CpuInstructionIdentity::Cop0Tlbp => Some(CpuLocalExecutedHelperFamily::Cop0Tlb),
        CpuInstructionIdentity::Cop0Eret => Some(CpuLocalExecutedHelperFamily::Cop0ExceptionReturn),
        _ => None,
    }
}

/// Chooses the CPU-local helper family for `identity`, if there is one.
pub fn select_cpu_local_executed_helper(identity: CpuInstructionIdentity) -> (r: Option<
    CpuLocalExecutedHelperSelection,
>)
    ensures
        r == (match spec_helper_family(identity) {
            Some(family) => Some(CpuLocalExecutedHelperSelection { identity, family }),
            None => None,
        }),
{
    let family = match identity {
        CpuInstructionIdentity::SpecialSync => Some(CpuLocalExecutedHelperFamily::NoEffectSync),
        CpuInstructionIdentity::SpecialSll
        | CpuInstructionIdentity::SpecialSrl
        | CpuInstructionIdentity::SpecialSra
        | CpuInstructionIdentity::SpecialSllv
        | CpuInstructionIdentity::SpecialSrlv
        | CpuInstructionIdentity::SpecialSrav
        | CpuInstructionIdentity::SpecialDsll
        | CpuInstructionIdentity::SpecialDsrl
        | CpuInstructionIdentity::SpecialDsra
        | CpuInstructionIdentity::SpecialDsll32
        | CpuInstructionIdentity::SpecialDsrl32
        | CpuInstructionIdentity::SpecialDsra32
        | CpuInstructionIdentity::SpecialDsllv
        | CpuInstructionIdentity::SpecialDsrlv
        | CpuInstructionIdentity::SpecialDsrav => Some(CpuLocalExecutedHelperFamily::SpecialShift),
        CpuInstructionIdentity::SpecialAnd
        | CpuInstructionIdentity::SpecialOr
        | CpuInstructionIdentity::SpecialXor
        | CpuInstructionIdentity::SpecialNor => Some(
            CpuLocalExecutedHelperFamily::SpecialBitwiseLogical,
        ),
        CpuInstructionIdentity::SpecialMfhi
        | CpuInstructionIdentity::SpecialMthi
        | CpuInstructionIdentity::SpecialMflo
        | CpuInstructionIdentity::SpecialMtlo => Some(
            CpuLocalExecutedHelperFamily::SpecialHiLoTransfer,
        ),
        CpuInstructionIdentity::SpecialMultu
        | CpuInstructionIdentity::SpecialDmultu => Some(
            CpuLocalExecutedHelperFamily::SpecialMultiply,
        ),
        CpuInstructionIdentity::SpecialDiv
        | CpuInstructionIdentity::SpecialDdivu => Some(CpuLocalExecutedHelperFamily::SpecialDivide),
        CpuInstructionIdentity::SpecialAddu
        | CpuInstructionIdentity::SpecialSubu
        | CpuInstructionIdentity::SpecialDaddu
        | CpuInstructionIdentity::SpecialDsubu
        | CpuInstructionIdentity::SpecialSlt
        | CpuInstructionIdentity::SpecialSltu => Some(
            CpuLocalExecutedHelperFamily::SpecialNonTrappingInteger,
        ),
        CpuInstructionIdentity::SpecialAdd
        | CpuInstructionIdentity::SpecialSub
        | CpuInstructionIdentity::SpecialDadd
        | CpuInstructionIdentity::SpecialDsub => Some(
            CpuLocalExecutedHelperFamily::SpecialTrappingInteger,
        ),
        CpuInstructionIdentity::Addi | CpuInstructionIdentity::Daddi => Some(
            CpuLocalExecutedHelperFamily::ImmediateTrappingInteger,
        ),
        CpuInstructionIdentity::Addiu | CpuInstructionIdentity::Daddiu => Some(
            CpuLocalExecutedHelperFamily::ImmediateNonTrappingInteger,
        ),
        CpuInstructionIdentity::Slti | CpuInstructionIdentity::Sltiu => Some(
            CpuLocalExecutedHelperFamily::ImmediateComparison,
        ),
        CpuInstructionIdentity::Andi
        | CpuInstructionIdentity::Ori
        | CpuInstructionIdentity::Xori => Some(CpuLocalExecutedHelperFamily::ImmediateBitwiseLogical),
        CpuInstructionIdentity::Lui => Some(CpuLocalExecutedHelperFamily::UpperImmediateLui),
        CpuInstructionIdentity::Cop0Tlbr
        | CpuInstructionIdentity::Cop0Tlbwi
        | CpuInstructionIdentity::Cop0Tlbwr
        | CpuInstructionIdentity::Cop0Tlbp => Some(CpuLocalExecutedHelperFamily::Cop0Tlb),
        CpuInstructionIdentity::Cop0Eret => Some(CpuLocalExecutedHelperFamily::Cop0ExceptionReturn),
        _ => None,
    };
    match family {
        Some(family) => Some(CpuLocalExecutedHelperSelection { identity, family }),
        None => None,
    }
}

/// A helper invocation that ran to completion.
#[derive(Debug, Clone, Copy, PartialEq, Eq, Structural)]
pub struct CpuLocalExecutedHelperExecutedInstruction {
    pub identity: CpuInstructionIdentity,
    pub family: CpuLocalExecutedHelperFamily,
}

impl CpuLocalExecutedHelperExecutedInstruction {
    pub fn new(identity: CpuInstructionIdentity, family: CpuLocalExecutedHelperFamily) -> (r: Self)
        ensures
            r == (CpuLocalExecutedHelperExecutedInstruction { identity, family }),
    {
        Self { identity, family }
    }

    pub fn identity(self) -> (r: CpuInstructionIdentity)
        ensures
            r == self.identity,
    {
        self.identity
    }

    pub fn family(self) -> (r: CpuLocalExecutedHelperFamily)
        ensures
            r == self.family,
    {
        self.family
    }
}

/// A trapping instruction that overflowed during a helper invocation.
#[derive(Debug, Clone, Copy, PartialEq, Eq, Structural)]
pub enum CpuLocalExecutedHelperArithmeticOverflow {
    SpecialTrappingInteger(CpuSpecialTrappingIntegerOverflow),
    ImmediateTrappingInteger(CpuImmediateTrappingIntegerOverflow),
}

impl CpuLocalExecutedHelperArithmeticOverflow {
    pub open spec fn spec_identity(self) -> CpuInstructionIdentity {
        match self {
            CpuLocalExecutedHelperArithmeticOverflow::SpecialTrappingInteger(o) => o.identity,
            CpuLocalExecutedHelperArithmeticOverflow::ImmediateTrappingInteger(o) => o.identity,
        }
    }

    pub open spec fn spec_family(self) -> CpuLocalExecutedHelperFamily {
        match self {
            CpuLocalExecutedHelperArithmeticOverflow::SpecialTrappingInteger(_) => CpuLocalExecutedHelperFamily::SpecialTrappingInteger,
            CpuLocalExecutedHelperArithmeticOverflow::ImmediateTrappingInteger(_) => CpuLocalExecutedHelperFamily::ImmediateTrappingInteger,
        }
    }

    pub fn special_trapping_integer(
        identity: CpuInstructionIdentity,
        rd: u8,
        rs_value: u64,
        rt_value: u64,
    ) -> (r: Self)
        ensures
            r == CpuLocalExecutedHelperArithmeticOverflow::SpecialTrappingInteger(
                CpuSpecialTrappingIntegerOverflow { identity, rd, rs_value, rt_value },
            ),
    {
        CpuLocalExecutedHelperArithmeticOverflow::SpecialTrappingInteger(
            CpuSpecialTrappingIntegerOverflow { identity, rd, rs_value, rt_value },
        )
    }

    pub fn immediate_trapping_integer(
        identity: CpuInstructionIdentity,
        rt: u8,
        rs_value: u64,
        immediate_u16: u16,
        immediate_value: u64,
    ) -> (r: Self)
        ensures
            r == CpuLocalExecutedHelperArithmeticOverflow::ImmediateTrappingInteger(
                CpuImmediateTrappingIntegerOverflow {
                    identity,
                    rt,
                    rs_value,
                    immediate_u16,
                    immediate_value,
                },
            ),
    {
        CpuLocalExecutedHelperArithmeticOverflow::ImmediateTrappingInteger(
            CpuImmediateTrappingIntegerOverflow {
                identity,
                rt,
                rs_value,
                immediate_u16,
                immediate_value,
            },
        )
    }

    pub fn identity(self) -> (r: CpuInstructionIdentity)
        ensures
            r == self.spec_identity(),
    {
        match self {
            CpuLocalExecutedHelperArithmeticOverflow::SpecialTrappingInteger(o) => o.identity(),
            CpuLocalExecutedHelperArithmeticOverflow::ImmediateTrappingInteger(o) => o.identity(),
        }
    }

    pub fn family(self) -> (r: CpuLocalExecutedHelperFamily)
        ensures
            r == self.spec_family(),
    {
        match self {
            CpuLocalExecutedHelperArithmeticOverflow::SpecialTrappingInteger(_) => CpuLocalExecutedHelperFamily::SpecialTrappingInteger,
            CpuLocalExecutedHelperArithmeticOverflow::ImmediateTrappingInteger(_) => CpuLocalExecutedHelperFamily::ImmediateTrappingInteger,
        }
    }
}

/// What a helper invocation did.
#[derive(Debug, Clone, Copy, PartialEq, Eq, Structural)]
pub enum CpuLocalExecutedHelperInvocationOutcome {
    Executed(CpuLocalExecutedHelperExecutedInstruction),
    ArithmeticOverflow(CpuLocalExecutedHelperArithmeticOverflow),
}

impl CpuLocalExecutedHelperInvocationOutcome {
    pub fn identity(self) -> (r: CpuInstructionIdentity)
        ensures
            r == (match self {
                CpuLocalExecutedHelperInvocationOutcome::Executed(e) => e.identity,
                CpuLocalExecutedHelperInvocationOutcome::ArithmeticOverflow(o) => o.spec_identity(),
            }),
    {
        match self {
            CpuLocalExecutedHelperInvocationOutcome::Executed(e) => e.identity(),
            CpuLocalExecutedHelperInvocationOutcome::ArithmeticOverflow(o) => o.identity(),
        }
    }

    pub fn family(self) -> (r: CpuLocalExecutedHelperFamily)
        ensures
            r == (match self {
                CpuLocalExecutedHelperInvocationOutcome::Executed(e) => e.family,
                CpuLocalExecutedHelperInvocationOutcome::ArithmeticOverflow(o) => o.spec_family(),
            }),
    {
        match self {
            CpuLocalExecutedHelperInvocationOutcome::Executed(e) => e.family(),
            CpuLocalExecutedHelperInvocationOutcome::ArithmeticOverflow(o) => o.family(),
        }
    }

    pub fn is_executed(self) -> (r: bool)
        ensures
            r == self is Executed,
    {
        match self {
            CpuLocalExecutedHelperInvocationOutcome::Executed(_) => true,
            CpuLocalExecutedHelperInvocationOutcome::ArithmeticOverflow(_) => false,
        }
    }

    pub fn is_arithmetic_overflow(self) -> (r: bool)
        ensures
            r == self is ArithmeticOverflow,
    {
        match self {
            CpuLocalExecutedHelperInvocationOutcome::Executed(_) => false,
            CpuLocalExecutedHelperInvocationOutcome::ArithmeticOverflow(_) => true,
        }
    }
}

/// Why a helper invocation did not run.
#[derive(Debug, Clone, Copy, PartialEq, Eq, Structural)]
pub enum CpuLocalExecutedHelperInvocationError {
    HelperRejectedSelection(CpuLocalExecutedHelperSelection),
    RegisterIndex(CpuRegisterIndexError),
    Cop0Tlb { identity: CpuInstructionIdentity, error: MachineCop0TlbOperationError },
    Cop0ExceptionReturn(CpuCop0ExceptionReturnError),
}

impl From<CpuRegisterIndexError> for CpuLocalExecutedHelperInvocationError {
    fn from(error: CpuRegisterIndexError) -> (r: Self) {
        CpuLocalExecutedHelperInvocationError::RegisterIndex(error)
    }
}

impl vstd::std_specs::convert::FromSpecImpl<CpuRegisterIndexError> for CpuLocalExecutedHelperInvocationError {
    open spec fn obeys_from_spec() -> bool {
        true
    }

    open spec fn from_spec(error: CpuRegisterIndexError) -> Self {
        CpuLocalExecutedHelperInvocationError::RegisterIndex(error)
    }
}

/// The outcome an invocation that ran reports.
pub open spec fn spec_executed(
    selection: CpuLocalExecutedHelperSelection,
) -> Result<CpuLocalExecutedHelperInvocationOutcome, CpuLocalExecutedHelperInvocationError> {
    Ok(
        CpuLocalExecutedHelperInvocationOutcome::Executed(
            CpuLocalExecutedHelperExecutedInstruction {
                identity: selection.identity,
                family: selection.family,
            },
        ),
    )
}

/// The rejection of a selection the helper does not accept.
pub open spec fn spec_rejected(
    selection: CpuLocalExecutedHelperSelection,
) -> Result<CpuLocalExecutedHelperInvocationOutcome, CpuLocalExecutedHelperInvocationError> {
    Err(CpuLocalExecutedHelperInvocationError::HelperRejectedSelection(selection))
}

/// An invocation whose helper computes `value` for `destination` (or rejects it).
pub open spec fn spec_register_write_post(
    old: CpuState,
    new: CpuState,
    selection: CpuLocalExecutedHelperSelection,
    value: Option<u64>,
    destination: int,
    r: Result<CpuLocalExecutedHelperInvocationOutcome, CpuLocalExecutedHelperInvocationError>,
) -> bool {
    match value {
        None => r == spec_rejected(selection) && new == old,
        Some(v) => r == spec_executed(selection) && new == spec_write_gpr(old, destination, v),
    }
}

/// A COP0 operation reported through an invocation: its own postcondition holds for some
/// result, which the invocation passes on as executed or as a COP0 error.
pub open spec fn spec_tlb_invocation_post(
    identity: CpuInstructionIdentity,
    selection: CpuLocalExecutedHelperSelection,
    op: Result<u8, MachineCop0TlbOperationError>,
    r: Result<CpuLocalExecutedHelperInvocationOutcome, CpuLocalExecutedHelperInvocationError>,
) -> bool {
    match op {
        Ok(_) => r == spec_executed(selection),
        Err(error) => r == Err::<
            CpuLocalExecutedHelperInvocationOutcome,
            CpuLocalExecutedHelperInvocationError,
        >(CpuLocalExecutedHelperInvocationError::Cop0Tlb { identity, error }),
    }
}

/// What invoking the helper of `selection` on `f` does to the CPU state and returns.
pub open spec fn spec_invocation_post(
    old: CpuState,
    new: CpuState,
    f: CpuInstructionFields,
    selection: CpuLocalExecutedHelperSelection,
    r: Result<CpuLocalExecutedHelperInvocationOutcome, CpuLocalExecutedHelperInvocationError>,
) -> bool {
    let identity = selection.identity;
    let rs = spec_rs_value(old, f);
    let rt = spec_rt_value(old, f);
    let imm = f.spec_immediate();
    match selection.family {
        CpuLocalExecutedHelperFamily::NoEffectSync => if identity is SpecialSync {
            r == spec_executed(selection) && new == old
        } else {
            r == spec_rejected(selection) && new == old
        },
        CpuLocalExecutedHelperFamily::SpecialShift => spec_register_write_post(
            old,
            new,
            selection,
            spec_special_shift_value(identity, rs, rt, f.spec_sa()),
            f.spec_rd() as int,
            r,
        ),
        CpuLocalExecutedHelperFamily::SpecialBitwiseLogical => spec_register_write_post(
            old,
            new,
            selection,
            spec_special_bitwise_logical_value(identity, rs, rt),
            f.spec_rd() as int,
            r,
        ),
        CpuLocalExecutedHelperFamily::SpecialHiLoTransfer => match identity {
            CpuInstructionIdentity::SpecialMfhi => r == spec_executed(selection) && new
                == spec_write_gpr(old, f.spec_rd() as int, old.hi),
            CpuInstructionIdentity::SpecialMthi => r == spec_executed(selection) && new == (
            CpuState { hi: rs, ..old }),
            CpuInstructionIdentity::SpecialMflo => r == spec_executed(selection) && new
                == spec_write_gpr(old, f.spec_rd() as int, old.lo),
            CpuInstructionIdentity::SpecialMtlo => r == spec_executed(selection) && new == (
            CpuState { lo: rs, ..old }),
            _ => r == spec_rejected(selection) && new == old,
        },
        CpuLocalExecutedHelperFamily::SpecialMultiply => match identity {
            CpuInstructionIdentity::SpecialMultu => r == spec_executed(selection) && new == (
            CpuState { hi: spec_multu_hi_lo(rs, rt).0, lo: spec_multu_hi_lo(rs, rt).1, ..old }),
            CpuInstructionIdentity::SpecialDmultu => r == spec_executed(selection) && new == (
            CpuState { hi: spec_dmultu_hi_lo(rs, rt).0, lo: spec_dmultu_hi_lo(rs, rt).1, ..old }),
            _ => r == spec_rejected(selection) && new == old,
        },
        CpuLocalExecutedHelperFamily::SpecialDivide => match identity {
            CpuInstructionIdentity::SpecialDiv => r == spec_executed(selection) && new == (
            CpuState { hi: spec_div_hi_lo(rs, rt).0, lo: spec_div_hi_lo(rs, rt).1, ..old }),
            CpuInstructionIdentity::SpecialDdivu => r == spec_executed(selection) && new == (
            CpuState { hi: spec_ddivu_hi_lo(rs, rt).0, lo: spec_ddivu_hi_lo(rs, rt).1, ..old }),
            _ => r == spec_rejected(selection) && new == old,
        },
        CpuLocalExecutedHelperFamily::SpecialNonTrappingInteger => spec_register_write_post(
            old,
            new,
            selection,
            spec_special_non_trapping_integer_value(identity, rs, rt),
            f.spec_rd() as int,
            r,
        ),
        CpuLocalExecutedHelperFamily::SpecialTrappingInteger => if !spec_is_special_trapping_integer(
            identity,
        ) {
            r == spec_rejected(selection) && new == old
        } else if spec_special_trapping_integer_overflows(identity, rs, rt) {
            r == Ok::<
                CpuLocalExecutedHelperInvocationOutcome,
                CpuLocalExecutedHelperInvocationError,
            >(
                CpuLocalExecutedHelperInvocationOutcome::ArithmeticOverflow(
                    CpuLocalExecutedHelperArithmeticOverflow::SpecialTrappingInteger(
                        CpuSpecialTrappingIntegerOverflow {
                            identity,
                            rd: f.spec_rd(),
                            rs_value: rs,
                            rt_value: rt,
                        },
                    ),
                ),
            ) && new == old
        } else {
            r == spec_executed(selection) && new == spec_write_gpr(
                old,
                f.spec_rd() as int,
                spec_special_trapping_integer_value(identity, rs, rt),
            )
        },
        CpuLocalExecutedHelperFamily::ImmediateTrappingInteger => if !(identity is Addi
            || identity is Daddi) {
            r == spec_rejected(selection) && new == old
        } else if spec_immediate_trapping_integer_overflows(identity, rs, imm) {
            r == Ok::<
                CpuLocalExecutedHelperInvocationOutcome,
                CpuLocalExecutedHelperInvocationError,
            >(
                CpuLocalExecutedHelperInvocationOutcome::ArithmeticOverflow(
                    CpuLocalExecutedHelperArithmeticOverflow::ImmediateTrappingInteger(
                        CpuImmediateTrappingIntegerOverflow {
                            identity,
                            rt: f.spec_rt(),
                            rs_value: rs,
                            immediate_u16: imm,
                            immediate_value: spec_sext16(imm),
                        },
                    ),
                ),
            ) && new == old
        } else {
            r == spec_executed(selection) && new == spec_write_gpr(
                old,
                f.spec_rt() as int,
                spec_immediate_trapping_integer_value(identity, rs, imm),
            )
        },
        CpuLocalExecutedHelperFamily::ImmediateNonTrappingInteger => spec_register_write_post(
            old,
            new,
            selection,
            spec_immediate_non_trapping_integer_value(identity, rs, imm),
            f.spec_rt() as int,
            r,
        ),
        CpuLocalExecutedHelperFamily::ImmediateComparison => spec_register_write_post(
            old,
            new,
            selection,
            spec_immediate_comparison_value(identity, rs, imm),
            f.spec_rt() as int,
            r,
        ),
        CpuLocalExecutedHelperFamily::ImmediateBitwiseLogical => spec_register_write_post(
            old,
            new,
            selection,
            spec_immediate_bitwise_logical_value(identity, rs, imm),
            f.spec_rt() as int,
            r,
        ),
        CpuLocalExecutedHelperFamily::UpperImmediateLui => spec_register_write_post(
            old,
            new,
            selection,
            spec_upper_immediate_value(identity, imm),
            f.spec_rt() as int,
            r,
        ),
        CpuLocalExecutedHelperFamily::Cop0Tlb => match identity {
            CpuInstructionIdentity::Cop0Tlbr => exists|op: Result<u8, MachineCop0TlbOperationError>|
                spec_tlb_read_post(old, new, op) && spec_tlb_invocation_post(
                    identity,
                    selection,
                    op,
                    r,
                ),
            CpuInstructionIdentity::Cop0Tlbwi => exists|
                op: Result<u8, MachineCop0TlbOperationError>,
            |
                spec_tlb_write_indexed_post(old, new, op) && spec_tlb_invocation_post(
                    identity,
                    selection,
                    op,
                    r,
                ),
            CpuInstructionIdentity::Cop0Tlbwr => exists|
                op: Result<u8, MachineCop0TlbOperationError>,
            |
                spec_tlb_write_random_post(old, new, op) && spec_tlb_invocation_post(
                    identity,
                    selection,
                    op,
                    r,
                ),
            CpuInstructionIdentity::Cop0Tlbp => r == spec_executed(selection) && exists|
                op: Option<u8>,
            | spec_tlb_probe_post(old, new, op),
            _ => r == spec_rejected(selection) && new == old,
        },
        CpuLocalExecutedHelperFamily::Cop0ExceptionReturn => if identity is Cop0Eret {
            exists|op: Result<(), CpuCop0ExceptionReturnError>|
                spec_exception_return_post(old, new, op) && match op {
                    Ok(_) => r == spec_executed(selection),
                    Err(e) => r == Err::<
                        CpuLocalExecutedHelperInvocationOutcome,
                        CpuLocalExecutedHelperInvocationError,
                    >(CpuLocalExecutedHelperInvocationError::Cop0ExceptionReturn(e)),
                }
        } else {
            r == spec_rejected(selection) && new == old
        },
    }
}

impl Cpu {
    /// Runs the helper family of `selection` on `instruction`. A selection whose family
    /// does not own its identity is rejected without effect; a trapping instruction that
    /// overflows is reported without writing anything and without entering an exception.
    pub fn invoke_cpu_local_executed_helper(
        &mut self,
        instruction: CpuInstructionFields,
        selection: CpuLocalExecutedHelperSelection,
    ) -> (r: Result<CpuLocalExecutedHelperInvocationOutcome, CpuLocalExecutedHelperInvocationError>)
        requires
            instruction.wf(),
            selection.identity is Cop0Tlbwr ==> old(self)@.cop0.random < 32,
        ensures
            spec_invocation_post(old(self)@, final(self)@, instruction, selection, r),
    {
        let identity = selection.identity();
        let family = selection.family();
        let executed = Ok(
            CpuLocalExecutedHelperInvocationOutcome::Executed(
                CpuLocalExecutedHelperExecutedInstruction { identity, family },
            ),
        );
        let rejected = Err(CpuLocalExecutedHelperInvocationError::HelperRejectedSelection(selection));
        match family {
            CpuLocalExecutedHelperFamily::NoEffectSync => {
                if identity != CpuInstructionIdentity::SpecialSync {
                    return rejected;
                }
                executed
            },
            CpuLocalExecutedHelperFamily::SpecialShift => {
                match self.execute_special_shift_instruction(identity, instruction) {
                    Ok(_) => executed,
                    Err(CpuSpecialShiftExecutionError::UnsupportedIdentity(_)) => rejected,
                    Err(CpuSpecialShiftExecutionError::RegisterIndex(e)) => Err(
                        CpuLocalExecutedHelperInvocationError::RegisterIndex(e),
                    ),
                }
            },
            CpuLocalExecutedHelperFamily::SpecialBitwiseLogical => {
                match self.execute_special_bitwise_logical_instruction(identity, instruction) {
                    Ok(_) => executed,
                    Err(CpuSpecialBitwiseLogicalExecutionError::UnsupportedIdentity(_)) => rejected,
                    Err(CpuSpecialBitwiseLogicalExecutionError::RegisterIndex(e)) => Err(
                        CpuLocalExecutedHelperInvocationError::RegisterIndex(e),
                    ),
                }
            },
            CpuLocalExecutedHelperFamily::SpecialHiLoTransfer => {
                match self.execute_special_hi_lo_transfer_instruction(identity, instruction) {
                    Ok(_) => executed,
                    Err(CpuSpecialHiLoTransferExecutionError::UnsupportedIdentity(_)) => rejected,
                    Err(CpuSpecialHiLoTransferExecutionError::RegisterIndex(e)) => Err(
                        CpuLocalExecutedHelperInvocationError::RegisterIndex(e),
                    ),
                }
            },
            CpuLocalExecutedHelperFamily::SpecialMultiply => match identity {
                CpuInstructionIdentity::SpecialMultu => {
                    let (hi, lo) = multiply_unsigned_words(
                        read_gpr_word(self, instruction.rs()),
                        read_gpr_word(self, instruction.rt()),
                    );
                    proof {
                        let ghost a = spec_word(spec_rs_value(self@, instruction));
                        let ghost b = spec_word(spec_rt_value(self@, instruction));
                        assert(spec_word(a as u64) == a);
                        assert(spec_word(b as u64) == b);
                    }
                    self.stage_hi(hi);
                    self.stage_lo(lo);
                    executed
                },
                CpuInstructionIdentity::SpecialDmultu => {
                    let (hi, lo) = multiply_unsigned_doublewords(
                        read_gpr_value(self, instruction.rs()),
                        read_gpr_value(self, instruction.rt()),
                    );
                    self.stage_hi(hi);
                    self.stage_lo(lo);
                    executed
                },
                _ => rejected,
            },
            CpuLocalExecutedHelperFamily::SpecialDivide => match identity {
                CpuInstructionIdentity::SpecialDiv => {
                    let (hi, lo) = divide_signed_words(
                        read_gpr_word(self, instruction.rs()),
                        read_gpr_word(self, instruction.rt()),
                    );
                    proof {
                        let ghost a = spec_word(spec_rs_value(self@, instruction));
                        let ghost b = spec_word(spec_rt_value(self@, instruction));
                        assert(spec_word(a as u64) == a);
                        assert(spec_word(b as u64) == b);
                    }
                    self.stage_hi(hi);
                    self.stage_lo(lo);
                    executed
                },
                CpuInstructionIdentity::SpecialDdivu => {
                    let (hi, lo) = divide_unsigned_doublewords(
                        read_gpr_value(self, instruction.rs()),
                        read_gpr_value(self, instruction.rt()),
                    );
                    self.stage_hi(hi);
                    self.stage_lo(lo);
                    executed
                },
                _ => rejected,
            },
            CpuLocalExecutedHelperFamily::SpecialNonTrappingInteger => {
                match self.execute_special_non_trapping_integer_instruction(identity, instruction) {
                    Ok(_) => executed,
                    Err(CpuSpecialNonTrappingIntegerExecutionError::UnsupportedIdentity(_)) => {
                        rejected
                    },
                    Err(CpuSpecialNonTrappingIntegerExecutionError::RegisterIndex(e)) => Err(
                        CpuLocalExecutedHelperInvocationError::RegisterIndex(e),
                    ),
                }
            },
            CpuLocalExecutedHelperFamily::SpecialTrappingInteger => {
                match self.execute_special_trapping_integer_instruction(identity, instruction) {
                    Ok(CpuSpecialTrappingIntegerExecutionOutcome::Executed(_)) => executed,
                    Ok(CpuSpecialTrappingIntegerExecutionOutcome::Overflow(overflow)) => Ok(
                        CpuLocalExecutedHelperInvocationOutcome::ArithmeticOverflow(
                            CpuLocalExecutedHelperArithmeticOverflow::SpecialTrappingInteger(
                                overflow,
                            ),
                        ),
                    ),
                    Err(CpuSpecialTrappingIntegerExecutionError::UnsupportedIdentity(_)) => rejected,
                    Err(CpuSpecialTrappingIntegerExecutionError::RegisterIndex(e)) => Err(
                        CpuLocalExecutedHelperInvocationError::RegisterIndex(e),
                    ),
                }
            },
            CpuLocalExecutedHelperFamily::ImmediateTrappingInteger => {
                match self.execute_immediate_trapping_integer_instruction(identity, instruction) {
                    Ok(CpuImmediateTrappingIntegerExecutionOutcome::Executed(_)) => executed,
                    Ok(CpuImmediateTrappingIntegerExecutionOutcome::Overflow(overflow)) => Ok(
                        CpuLocalExecutedHelperInvocationOutcome::ArithmeticOverflow(
                            CpuLocalExecutedHelperArithmeticOverflow::ImmediateTrappingInteger(
                                overflow,
                            ),
                        ),
                    ),
                    Err(CpuImmediateTrappingIntegerExecutionError::UnsupportedIdentity(_)) => {
                        rejected
                    },
                    Err(CpuImmediateTrappingIntegerExecutionError::RegisterIndex(e)) => Err(
                        CpuLocalExecutedHelperInvocationError::RegisterIndex(e),
                    ),
                }
            },
            CpuLocalExecutedHelperFamily::ImmediateNonTrappingInteger => {
                match self.execute_immediate_non_trapping_integer_instruction(
                    identity,
                    instruction,
                ) {
                    Ok(_) => executed,
                    Err(CpuImmediateNonTrappingIntegerExecutionError::UnsupportedIdentity(_)) => {
                        rejected
                    },
                    Err(CpuImmediateNonTrappingIntegerExecutionError::RegisterIndex(e)) => Err(
                        CpuLocalExecutedHelperInvocationError::RegisterIndex(e),
                    ),
                }
            },
            CpuLocalExecutedHelperFamily::ImmediateComparison => {
                match self.execute_immediate_comparison_instruction(identity, instruction) {
                    Ok(_) => executed,
                    Err(CpuImmediateComparisonExecutionError::UnsupportedIdentity(_)) => rejected,
                    Err(CpuImmediateComparisonExecutionError::RegisterIndex(e)) => Err(
                        CpuLocalExecutedHelperInvocationError::RegisterIndex(e),
                    ),
                }
            },
            CpuLocalExecutedHelperFamily::ImmediateBitwiseLogical => {
                match self.execute_immediate_bitwise_logical_instruction(identity, instruction) {
                    Ok(_) => executed,
                    Err(CpuImmediateBitwiseLogicalExecutionError::UnsupportedIdentity(_)) => {
                        rejected
                    },
                    Err(CpuImmediateBitwiseLogicalExecutionError::RegisterIndex(e)) => Err(
                        CpuLocalExecutedHelperInvocationError::RegisterIndex(e),
                    ),
                }
            },
            CpuLocalExecutedHelperFamily::UpperImmediateLui => {
                match self.execute_upper_immediate_instruction(identity, instruction) {
                    Ok(_) => executed,
                    Err(CpuUpperImmediateExecutionError::UnsupportedIdentity(_)) => rejected,
                    Err(CpuUpperImmediateExecutionError::RegisterIndex(e)) => Err(
                        CpuLocalExecutedHelperInvocationError::RegisterIndex(e),
                    ),
                }
            },
            CpuLocalExecutedHelperFamily::Cop0Tlb => match identity {
                CpuInstructionIdentity::Cop0Tlbr => {
                    let op = self.execute_cop0_tlb_read();
                    match op {
                        Ok(_) => executed,
                        Err(error) => Err(
                            CpuLocalExecutedHelperInvocationError::Cop0Tlb { identity, error },
                        ),
                    }
                },
                CpuInstructionIdentity::Cop0Tlbwi => {
                    let op = self.execute_cop0_tlb_write_indexed();
                    match op {
                        Ok(_) => executed,
                        Err(error) => Err(
                            CpuLocalExecutedHelperInvocationError::Cop0Tlb { identity, error },
                        ),
                    }
                },
                CpuInstructionIdentity::Cop0Tlbwr => {
                    let op = self.execute_cop0_tlb_write_random();
                    match op {
                        Ok(_) => executed,
                        Err(error) => Err(
                            CpuLocalExecutedHelperInvocationError::Cop0Tlb { identity, error },
                        ),
                    }
                },
                CpuInstructionIdentity::Cop0Tlbp => {
                    let _ = self.execute_cop0_tlb_probe();
                    executed
                },
                _ => rejected,
            },
            CpuLocalExecutedHelperFamily::Cop0ExceptionReturn => {
                if identity != CpuInstructionIdentity::Cop0Eret {
                    return rejected;
                }
                let op = self.execute_cop0_exception_return();
                match op {
                    Ok(()) => executed,
                    Err(e) => Err(CpuLocalExecutedHelperInvocationError::Cop0ExceptionReturn(e)),
                }
            },
        }
    }
}

/// Whenever ADD (or DADD) does not overflow, it writes what ADDU (or DADDU) writes for the
/// same operands; the trapping and wrapping forms differ only in the overflow check.
pub proof fn lemma_trapping_add_agrees_with_wrapping_add(rs: u64, rt: u64)
    ensures
        !spec_special_trapping_integer_overflows(CpuInstructionIdentity::SpecialAdd, rs, rt)
            ==> Some(
            spec_special_trapping_integer_value(CpuInstructionIdentity::SpecialAdd, rs, rt),
        ) == spec_special_non_trapping_integer_value(CpuInstructionIdentity::SpecialAddu, rs, rt),
        !spec_special_trapping_integer_overflows(CpuInstructionIdentity::SpecialSub, rs, rt)
            ==> Some(
            spec_special_trapping_integer_value(CpuInstructionIdentity::SpecialSub, rs, rt),
        ) == spec_special_non_trapping_integer_value(CpuInstructionIdentity::SpecialSubu, rs, rt),
        !spec_special_trapping_integer_overflows(CpuInstructionIdentity::SpecialDadd, rs, rt)
            ==> Some(
            spec_special_trapping_integer_value(CpuInstructionIdentity::SpecialDadd, rs, rt),
        ) == spec_special_non_trapping_integer_value(
            CpuInstructionIdentity::SpecialDaddu,
            rs,
            rt,
        ),
        !spec_special_trapping_integer_overflows(CpuInstructionIdentity::SpecialDsub, rs, rt)
            ==> Some(
            spec_special_trapping_integer_value(CpuInstructionIdentity::SpecialDsub, rs, rt),
        ) == spec_special_non_trapping_integer_value(
            CpuInstructionIdentity::SpecialDsubu,
            rs,
            rt,
        ),
{
    lemma_doubleword_bits_of_signed_sum(rs, rt);
    let m: int = 0x1_0000_0000;
    let a = spec_word(rs);
    let b = spec_word(rt);
    let sa = spec_signed32(a);
    let sb = spec_signed32(b);
    assert(sa == a || sa == a - m);
    assert(sb == b || sb == b - m);
    vstd::arithmetic::div_mod::lemma_mod_add_multiples_vanish(a + b, m);
    vstd::arithmetic::div_mod::lemma_mod_sub_multiples_vanish(a + b, m);
    vstd::arithmetic::div_mod::lemma_mod_add_multiples_vanish(a - b, m);
    vstd::arithmetic::div_mod::lemma_mod_sub_multiples_vanish(a - b, m);
    vstd::arithmetic::div_mod::lemma_mod_sub_multiples_vanish(a + b - m, m);
    vstd::arithmetic::div_mod::lemma_mod_add_multiples_vanish(a - b - m, m);
}

/// A register write never changes register 0, and changes no register but its target.
pub proof fn lemma_register_write_frame(s: CpuState, index: int, value: u64, other: int)
    requires
        s.gprs.len() == 32,
        0 <= index < 32,
        0 <= other < 32,
        other != index,
    ensures
        spec_write_gpr(s, index, value).gpr(0) == 0,
        spec_write_gpr(s, index, value).gpr(other) == s.gpr(other),
        spec_write_gpr(s, index, value).gpr(index) == (if index == 0 {
            0
        } else {
            value
        }),
        spec_write_gpr(s, index, value) == (CpuState {
            gprs: spec_write_gpr(s, index, value).gprs,
            ..s
        }),
{
}

} // verus!
