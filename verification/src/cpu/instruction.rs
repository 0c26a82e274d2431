use vstd::prelude::*;

verus! {

/// One raw 32-bit CPU instruction word.
#[derive(Debug, Clone, Copy, PartialEq, Eq, Structural)]
pub struct CpuInstructionWord(pub u32);

impl View for CpuInstructionWord {
    type V = u32;

    open spec fn view(&self) -> u32 {
        self.0
    }
}

impl CpuInstructionWord {
    pub fn new(bits: u32) -> (r: Self)
        ensures
            r@ == bits,
    {
        Self(bits)
    }

    pub fn bits(self) -> (r: u32)
        ensures
            r == self@,
    {
        self.0
    }
}

/// The raw bit fields of a decoded instruction word; every field is read from `raw`.
#[derive(Debug, Clone, Copy, PartialEq, Eq, Structural)]
pub struct CpuInstructionFields {
    raw: CpuInstructionWord,
    opcode: u8,
    rs: u8,
    rt: u8,
    rd: u8,
    sa: u8,
    funct: u8,
    immediate_u16: u16,
    jump_target: u32,
}

/// The primary opcode: bits 31..26.
pub open spec fn spec_field_opcode(bits: u32) -> u8 {
    (bits as int / 0x0400_0000) as u8
}

/// The rs register field: bits 25..21.
pub open spec fn spec_field_rs(bits: u32) -> u8 {
    (bits as int / 0x20_0000 % 32) as u8
}

/// The rt register field: bits 20..16.
pub open spec fn spec_field_rt(bits: u32) -> u8 {
    (bits as int / 0x1_0000 % 32) as u8
}

/// The rd register field: bits 15..11.
pub open spec fn spec_field_rd(bits: u32) -> u8 {
    (bits as int / 0x800 % 32) as u8
}

/// The shift-amount field: bits 10..6.
pub open spec fn spec_field_sa(bits: u32) -> u8 {
    (bits as int / 0x40 % 32) as u8
}

/// The SPECIAL function field: bits 5..0.
pub open spec fn spec_field_funct(bits: u32) -> u8 {
    (bits as int % 64) as u8
}

/// The 16-bit immediate: bits 15..0.
pub open spec fn spec_field_immediate(bits: u32) -> u16 {
    (bits as int % 0x1_0000) as u16
}

/// The 26-bit jump target: bits 25..0.
pub open spec fn spec_field_jump_target(bits: u32) -> u32 {
    (bits as int % 0x0400_0000) as u32
}

impl CpuInstructionFields {
    pub closed spec fn spec_raw(self) -> u32 {
        self.raw@
    }

    pub closed spec fn spec_opcode(self) -> u8 {
        self.opcode
    }

    pub closed spec fn spec_rs(self) -> u8 {
        self.rs
    }

    pub closed spec fn spec_rt(self) -> u8 {
        self.rt
    }

    pub closed spec fn spec_rd(self) -> u8 {
        self.rd
    }

    pub closed spec fn spec_sa(self) -> u8 {
        self.sa
    }

    pub closed spec fn spec_funct(self) -> u8 {
        self.funct
    }

    pub closed spec fn spec_immediate(self) -> u16 {
        self.immediate_u16
    }

    pub closed spec fn spec_jump_target(self) -> u32 {
        self.jump_target
    }

    /// Register fields are five bits wide.
    pub closed spec fn wf(self) -> bool {
        &&& self.rs < 32
        &&& self.rt < 32
        &&& self.rd < 32
        &&& self.sa < 32
    }

    /// The register and shift-amount fields of a well-formed instruction are five bits wide.
    pub proof fn lemma_register_fields_bounded(self)
        requires
            self.wf(),
        ensures
            self.spec_rs() < 32,
            self.spec_rt() < 32,
            self.spec_rd() < 32,
            self.spec_sa() < 32,
    {
    }

    pub fn raw(self) -> (r: CpuInstructionWord)
        ensures
            r@ == self.spec_raw(),
    {
        self.raw
    }

    pub fn opcode(self) -> (r: u8)
        ensures
            r == self.spec_opcode(),
    {
        self.opcode
    }

    pub fn rs(self) -> (r: u8)
        ensures
            r == self.spec_rs(),
            self.wf() ==> r < 32,
    {
        self.rs
    }

    pub fn rt(self) -> (r: u8)
        ensures
            r == self.spec_rt(),
            self.wf() ==> r < 32,
    {
        self.rt
    }

    pub fn rd(self) -> (r: u8)
        ensures
            r == self.spec_rd(),
            self.wf() ==> r < 32,
    {
        self.rd
    }

    pub fn sa(self) -> (r: u8)
        ensures
            r == self.spec_sa(),
            self.wf() ==> r < 32,
    {
        self.sa
    }

    pub fn funct(self) -> (r: u8)
        ensures
            r == self.spec_funct(),
    {
        self.funct
    }

    pub fn immediate_u16(self) -> (r: u16)
        ensures
            r == self.spec_immediate(),
    {
        self.immediate_u16
    }

    pub fn jump_target(self) -> (r: u32)
        ensures
            r == self.spec_jump_target(),
    {
        self.jump_target
    }
}

/// Decoding reads every field from its fixed bit position in the raw word.
pub open spec fn decodes_from(fields: CpuInstructionFields, bits: u32) -> bool {
    &&& fields.spec_raw() == bits
    &&& fields.spec_opcode() == spec_field_opcode(bits)
    &&& fields.spec_rs() == spec_field_rs(bits)
    &&& fields.spec_rt() == spec_field_rt(bits)
    &&& fields.spec_rd() == spec_field_rd(bits)
    &&& fields.spec_sa() == spec_field_sa(bits)
    &&& fields.spec_funct() == spec_field_funct(bits)
    &&& fields.spec_immediate() == spec_field_immediate(bits)
    &&& fields.spec_jump_target() == spec_field_jump_target(bits)
}

proof fn lemma_field_bits(bits: u32)
    by (bit_vector)
    ensures
        (bits >> 26u32) & 0x3fu32 == bits / 0x0400_0000u32,
        (bits >> 21u32) & 0x1fu32 == (bits / 0x20_0000u32) % 32u32,
        (bits >> 16u32) & 0x1fu32 == (bits / 0x1_0000u32) % 32u32,
        (bits >> 11u32) & 0x1fu32 == (bits / 0x800u32) % 32u32,
        (bits >> 6u32) & 0x1fu32 == (bits / 0x40u32) % 32u32,
        bits & 0x3fu32 == bits % 64u32,
        bits & 0xffffu32 == bits % 0x1_0000u32,
        bits & 0x03ff_ffffu32 == bits % 0x0400_0000u32,
{
}

pub fn decode_cpu_instruction_word(raw: CpuInstructionWord) -> (r: CpuInstructionFields)
    ensures
        decodes_from(r, raw@),
        r.wf(),
{
    let bits = raw.bits();
    proof {
        lemma_field_bits(bits);
    }
    CpuInstructionFields {
        raw,
        opcode: ((bits >> 26) & 0x3f) as u8,
        rs: ((bits >> 21) & 0x1f) as u8,
        rt: ((bits >> 16) & 0x1f) as u8,
        rd: ((bits >> 11) & 0x1f) as u8,
        sa: ((bits >> 6) & 0x1f) as u8,
        funct: (bits & 0x3f) as u8,
        immediate_u16: (bits & 0xffff) as u16,
        jump_target: bits & 0x03ff_ffff,
    }
}

#[derive(Debug, Clone, Copy, PartialEq, Eq, Structural)]
pub enum CpuInstructionIdentity {
    UnknownPrimary,
    SpecialUnknown,
    RegimmUnknown,
    SpecialSll,
    SpecialSrl,
    SpecialSra,
    SpecialSllv,
    SpecialSrlv,
    SpecialSrav,
    SpecialJr,
    SpecialJalr,
    SpecialSyscall,
    SpecialBreak,
    SpecialSync,
    SpecialMfhi,
    SpecialMthi,
    SpecialMflo,
    SpecialMtlo,
    SpecialDsllv,
    SpecialDsrlv,
    SpecialDsrav,
    SpecialMult,
    SpecialMultu,
    SpecialDiv,
    SpecialDivu,
    SpecialDmult,
    SpecialDmultu,
    SpecialDdiv,
    SpecialDdivu,
    SpecialAdd,
    SpecialAddu,
    SpecialSub,
    SpecialSubu,
    SpecialAnd,
    SpecialOr,
    SpecialXor,
    SpecialNor,
    SpecialSlt,
    SpecialSltu,
    SpecialDadd,
    SpecialDaddu,
    SpecialDsub,
    SpecialDsubu,
    SpecialTge,
    SpecialTgeu,
    SpecialTlt,
    SpecialTltu,
    SpecialTeq,
    SpecialTne,
    SpecialDsll,
    SpecialDsrl,
    SpecialDsra,
    SpecialDsll32,
    SpecialDsrl32,
    SpecialDsra32,
    RegimmBltz,
    RegimmBgez,
    RegimmBltzl,
    RegimmBgezl,
    RegimmTgei,
    RegimmTgeiu,
    RegimmTlti,
    RegimmTltiu,
    RegimmTeqi,
    RegimmTnei,
    RegimmBltzal,
    RegimmBgezal,
    RegimmBltzall,
    RegimmBgezall,
    J,
    Jal,
    Beq,
    Bne,
    Blez,
    Bgtz,
    Addi,
    Addiu,
    Slti,
    Sltiu,
    Andi,
    Ori,
    Xori,
    Lui,
    Cop0,
    Cop0Mfc0,
    Cop0Mtc0,
    Cop0Tlbr,
    Cop0Tlbwi,
    Cop0Tlbwr,
    Cop0Tlbp,
    Cop0Eret,
    Cop1,
    Cop1Cfc1,
    Cop1Ctc1,
    Cop2,
    Cop3,
    Beql,
    Bnel,
    Blezl,
    Bgtzl,
    Daddi,
    Daddiu,
    Ldl,
    Ldr,
    Lb,
    Lh,
    Lwl,
    Lw,
    Lbu,
    Lhu,
    Lwr,
    Lwu,
    Sb,
    Sh,
    Swl,
    Sw,
    Sdl,
    Sdr,
    Swr,
    Cache,
    Ll,
    Lwc1,
    Lwc2,
    Lld,
    Ldc1,
    Ldc2,
    Ld,
    Sc,
    Swc1,
    Swc2,
    Scd,
    Sdc1,
    Sdc2,
    Sd,
}

/// The SPECIAL (opcode 0) instruction selected by the function field.
pub open spec fn spec_special_identity(funct: u8) -> CpuInstructionIdentity {
    match funct {
        0x00 => CpuInstructionIdentity::SpecialSll,
        0x02 => CpuInstructionIdentity::SpecialSrl,
        0x03 => CpuInstructionIdentity::SpecialSra,
        0x04 => CpuInstructionIdentity::SpecialSllv,
        0x06 => CpuInstructionIdentity::SpecialSrlv,
        0x07 => CpuInstructionIdentity::SpecialSrav,
        0x08 => CpuInstructionIdentity::SpecialJr,
        0x09 => CpuInstructionIdentity::SpecialJalr,
        0x0c => CpuInstructionIdentity::SpecialSyscall,
        0x0d => CpuInstructionIdentity::SpecialBreak,
        0x0f => CpuInstructionIdentity::SpecialSync,
        0x10 => CpuInstructionIdentity::SpecialMfhi,
        0x11 => CpuInstructionIdentity::SpecialMthi,
        0x12 => CpuInstructionIdentity::SpecialMflo,
        0x13 => CpuInstructionIdentity::SpecialMtlo,
        0x14 => CpuInstructionIdentity::SpecialDsllv,
        0x16 => CpuInstructionIdentity::SpecialDsrlv,
        0x17 => CpuInstructionIdentity::SpecialDsrav,
        0x18 => CpuInstructionIdentity::SpecialMult,
        0x19 => CpuInstructionIdentity::SpecialMultu,
        0x1a => CpuInstructionIdentity::SpecialDiv,
        0x1b => CpuInstructionIdentity::SpecialDivu,
        0x1c => CpuInstructionIdentity::SpecialDmult,
        0x1d => CpuInstructionIdentity::SpecialDmultu,
        0x1e => CpuInstructionIdentity::SpecialDdiv,
        0x1f => CpuInstructionIdentity::SpecialDdivu,
        0x20 => CpuInstructionIdentity::SpecialAdd,
        0x21 => CpuInstructionIdentity::SpecialAddu,
        0x22 => CpuInstructionIdentity::SpecialSub,
        0x23 => CpuInstructionIdentity::SpecialSubu,
        0x24 => CpuInstructionIdentity::SpecialAnd,
        0x25 => CpuInstructionIdentity::SpecialOr,
        0x26 => CpuInstructionIdentity::SpecialXor,
        0x27 => CpuInstructionIdentity::SpecialNor,
        0x2a => CpuInstructionIdentity::SpecialSlt,
        0x2b => CpuInstructionIdentity::SpecialSltu,
        0x2c => CpuInstructionIdentity::SpecialDadd,
        0x2d => CpuInstructionIdentity::SpecialDaddu,
        0x2e => CpuInstructionIdentity::SpecialDsub,
        0x2f => CpuInstructionIdentity::SpecialDsubu,
        0x30 => CpuInstructionIdentity::SpecialTge,
        0x31 => CpuInstructionIdentity::SpecialTgeu,
        0x32 => CpuInstructionIdentity::SpecialTlt,
        0x33 => CpuInstructionIdentity::SpecialTltu,
        0x34 => CpuInstructionIdentity::SpecialTeq,
        0x36 => CpuInstructionIdentity::SpecialTne,
        0x38 => CpuInstructionIdentity::SpecialDsll,
        0x3a => CpuInstructionIdentity::SpecialDsrl,
        0x3b => CpuInstructionIdentity::SpecialDsra,
        0x3c => CpuInstructionIdentity::SpecialDsll32,
        0x3e => CpuInstructionIdentity::SpecialDsrl32,
        0x3f => CpuInstructionIdentity::SpecialDsra32,
        _ => CpuInstructionIdentity::SpecialUnknown,
    }
}

/// The REGIMM (opcode 1) instruction selected by the rt field.
pub open spec fn spec_regimm_identity(rt: u8) -> CpuInstructionIdentity {
    match rt {
        0x00 => CpuInstructionIdentity::RegimmBltz,
        0x01 => CpuInstructionIdentity::RegimmBgez,
        0x02 => CpuInstructionIdentity::RegimmBltzl,
        0x03 => CpuInstructionIdentity::RegimmBgezl,
        0x08 => CpuInstructionIdentity::RegimmTgei,
        0x09 => CpuInstructionIdentity::RegimmTgeiu,
        0x0a => CpuInstructionIdentity::RegimmTlti,
        0x0b => CpuInstructionIdentity::RegimmTltiu,
        0x0c => CpuInstructionIdentity::RegimmTeqi,
        0x0e => CpuInstructionIdentity::RegimmTnei,
        0x10 => CpuInstructionIdentity::RegimmBltzal,
        0x11 => CpuInstructionIdentity::RegimmBgezal,
        0x12 => CpuInstructionIdentity::RegimmBltzall,
        0x13 => CpuInstructionIdentity::RegimmBgezall,
        _ => CpuInstructionIdentity::RegimmUnknown,
    }
}

/// The COP0 (opcode 0x10) instruction selected by rs and, for CO operations, the exact word.
pub open spec fn spec_cop0_identity(rs: u8, bits: u32) -> CpuInstructionIdentity {
    match rs {
        0x00 => CpuInstructionIdentity::Cop0Mfc0,
        0x04 => CpuInstructionIdentity::Cop0Mtc0,
        0x10 => match bits {
            0x4200_0001 => CpuInstructionIdentity::Cop0Tlbr,
            0x4200_0002 => CpuInstructionIdentity::Cop0Tlbwi,
            0x4200_0006 => CpuInstructionIdentity::Cop0Tlbwr,
            0x4200_0008 => CpuInstructionIdentity::Cop0Tlbp,
            0x4200_0018 => CpuInstructionIdentity::Cop0Eret,
            _ => CpuInstructionIdentity::Cop0,
        },
        _ => CpuInstructionIdentity::Cop0,
    }
}

/// The COP1 (opcode 0x11) instruction selected by rs.
pub open spec fn spec_cop1_identity(rs: u8) -> CpuInstructionIdentity {
    match rs {
        0x02 => CpuInstructionIdentity::Cop1Cfc1,
        0x06 => CpuInstructionIdentity::Cop1Ctc1,
        _ => CpuInstructionIdentity::Cop1,
    }
}

/// The instruction named by a primary opcode other than SPECIAL, REGIMM, COP0 and COP1.
pub open spec fn spec_primary_identity(opcode: u8) -> CpuInstructionIdentity {
    match opcode {
        0x02 => CpuInstructionIdentity::J,
        0x03 => CpuInstructionIdentity::Jal,
        0x04 => CpuInstructionIdentity::Beq,
        0x05 => CpuInstructionIdentity::Bne,
        0x06 => CpuInstructionIdentity::Blez,
        0x07 => CpuInstructionIdentity::Bgtz,
        0x08 => CpuInstructionIdentity::Addi,
        0x09 => CpuInstructionIdentity::Addiu,
        0x0a => CpuInstructionIdentity::Slti,
        0x0b => CpuInstructionIdentity::Sltiu,
        0x0c => CpuInstructionIdentity::Andi,
        0x0d => CpuInstructionIdentity::Ori,
        0x0e => CpuInstructionIdentity::Xori,
        0x0f => CpuInstructionIdentity::Lui,
        0x12 => CpuInstructionIdentity::Cop2,
        0x13 => CpuInstructionIdentity::Cop3,
        0x14 => CpuInstructionIdentity::Beql,
        0x15 => CpuInstructionIdentity::Bnel,
        0x16 => CpuInstructionIdentity::Blezl,
        0x17 => CpuInstructionIdentity::Bgtzl,
        0x18 => CpuInstructionIdentity::Daddi,
        0x19 => CpuInstructionIdentity::Daddiu,
        0x1a => CpuInstructionIdentity::Ldl,
        0x1b => CpuInstructionIdentity::Ldr,
        0x20 => CpuInstructionIdentity::Lb,
        0x21 => CpuInstructionIdentity::Lh,
        0x22 => CpuInstructionIdentity::Lwl,
        0x23 => CpuInstructionIdentity::Lw,
        0x24 => CpuInstructionIdentity::Lbu,
        0x25 => CpuInstructionIdentity::Lhu,
        0x26 => CpuInstructionIdentity::Lwr,
        0x27 => CpuInstructionIdentity::Lwu,
        0x28 => CpuInstructionIdentity::Sb,
        0x29 => CpuInstructionIdentity::Sh,
        0x2a => CpuInstructionIdentity::Swl,
        0x2b => CpuInstructionIdentity::Sw,
        0x2c => CpuInstructionIdentity::Sdl,
        0x2d => CpuInstructionIdentity::Sdr,
        0x2e => CpuInstructionIdentity::Swr,
        0x2f => CpuInstructionIdentity::Cache,
        0x30 => CpuInstructionIdentity::Ll,
        0x31 => CpuInstructionIdentity::Lwc1,
        0x32 => CpuInstructionIdentity::Lwc2,
        0x34 => CpuInstructionIdentity::Lld,
        0x35 => CpuInstructionIdentity::Ldc1,
        0x36 => CpuInstructionIdentity::Ldc2,
        0x37 => CpuInstructionIdentity::Ld,
        0x38 => CpuInstructionIdentity::Sc,
        0x39 => CpuInstructionIdentity::Swc1,
        0x3a => CpuInstructionIdentity::Swc2,
        0x3c => CpuInstructionIdentity::Scd,
        0x3d => CpuInstructionIdentity::Sdc1,
        0x3e => CpuInstructionIdentity::Sdc2,
        0x3f => CpuInstructionIdentity::Sd,
        _ => CpuInstructionIdentity::UnknownPrimary,
    }
}

/// The identity of a decoded instruction: the opcode selects a table, and SPECIAL,
/// REGIMM, COP0 and COP1 refine it by their sub-fields.
pub open spec fn spec_identify(
    opcode: u8,
    rs: u8,
    rt: u8,
    funct: u8,
    bits: u32,
) -> CpuInstructionIdentity {
    match opcode {
        0x00 => spec_special_identity(funct),
        0x01 => spec_regimm_identity(rt),
        0x10 => spec_cop0_identity(rs, bits),
        0x11 => spec_cop1_identity(rs),
        _ => spec_primary_identity(opcode),
    }
}

pub open spec fn spec_identify_fields(f: CpuInstructionFields) -> CpuInstructionIdentity {
    spec_identify(f.spec_opcode(), f.spec_rs(), f.spec_rt(), f.spec_funct(), f.spec_raw())
}

fn special_identity(funct: u8) -> (r: CpuInstructionIdentity)
    ensures
        r == spec_special_identity(funct),
{
    match funct {
        0x00 => CpuInstructionIdentity::SpecialSll,
        0x02 => CpuInstructionIdentity::SpecialSrl,
        0x03 => CpuInstructionIdentity::SpecialSra,
        0x04 => CpuInstructionIdentity::SpecialSllv,
        0x06 => CpuInstructionIdentity::SpecialSrlv,
        0x07 => CpuInstructionIdentity::SpecialSrav,
        0x08 => CpuInstructionIdentity::SpecialJr,
        0x09 => CpuInstructionIdentity::SpecialJalr,
        0x0c => CpuInstructionIdentity::SpecialSyscall,
        0x0d => CpuInstructionIdentity::SpecialBreak,
        0x0f => CpuInstructionIdentity::SpecialSync,
        0x10 => CpuInstructionIdentity::SpecialMfhi,
        0x11 => CpuInstructionIdentity::SpecialMthi,
        0x12 => CpuInstructionIdentity::SpecialMflo,
        0x13 => CpuInstructionIdentity::SpecialMtlo,
        0x14 => CpuInstructionIdentity::SpecialDsllv,
        0x16 => CpuInstructionIdentity::SpecialDsrlv,
        0x17 => CpuInstructionIdentity::SpecialDsrav,
        0x18 => CpuInstructionIdentity::SpecialMult,
        0x19 => CpuInstructionIdentity::SpecialMultu,
        0x1a => CpuInstructionIdentity::SpecialDiv,
        0x1b => CpuInstructionIdentity::SpecialDivu,
        0x1c => CpuInstructionIdentity::SpecialDmult,
        0x1d => CpuInstructionIdentity::SpecialDmultu,
        0x1e => CpuInstructionIdentity::SpecialDdiv,
        0x1f => CpuInstructionIdentity::SpecialDdivu,
        0x20 => CpuInstructionIdentity::SpecialAdd,
        0x21 => CpuInstructionIdentity::SpecialAddu,
        0x22 => CpuInstructionIdentity::SpecialSub,
        0x23 => CpuInstructionIdentity::SpecialSubu,
        0x24 => CpuInstructionIdentity::SpecialAnd,
        0x25 => CpuInstructionIdentity::SpecialOr,
        0x26 => CpuInstructionIdentity::SpecialXor,
        0x27 => CpuInstructionIdentity::SpecialNor,
        0x2a => CpuInstructionIdentity::SpecialSlt,
        0x2b => CpuInstructionIdentity::SpecialSltu,
        0x2c => CpuInstructionIdentity::SpecialDadd,
        0x2d => CpuInstructionIdentity::SpecialDaddu,
        0x2e => CpuInstructionIdentity::SpecialDsub,
        0x2f => CpuInstructionIdentity::SpecialDsubu,
        0x30 => CpuInstructionIdentity::SpecialTge,
        0x31 => CpuInstructionIdentity::SpecialTgeu,
        0x32 => CpuInstructionIdentity::SpecialTlt,
        0x33 => CpuInstructionIdentity::SpecialTltu,
        0x34 => CpuInstructionIdentity::SpecialTeq,
        0x36 => CpuInstructionIdentity::SpecialTne,
        0x38 => CpuInstructionIdentity::SpecialDsll,
        0x3a => CpuInstructionIdentity::SpecialDsrl,
        0x3b => CpuInstructionIdentity::SpecialDsra,
        0x3c => CpuInstructionIdentity::SpecialDsll32,
        0x3e => CpuInstructionIdentity::SpecialDsrl32,
        0x3f => CpuInstructionIdentity::SpecialDsra32,
        _ => CpuInstructionIdentity::SpecialUnknown,
    }
}

fn regimm_identity(rt: u8) -> (r: CpuInstructionIdentity)
    ensures
        r == spec_regimm_identity(rt),
{
    match rt {
        0x00 => CpuInstructionIdentity::RegimmBltz,
        0x01 => CpuInstructionIdentity::RegimmBgez,
        0x02 => CpuInstructionIdentity::RegimmBltzl,
        0x03 => CpuInstructionIdentity::RegimmBgezl,
        0x08 => CpuInstructionIdentity::RegimmTgei,
        0x09 => CpuInstructionIdentity::RegimmTgeiu,
        0x0a => CpuInstructionIdentity::RegimmTlti,
        0x0b => CpuInstructionIdentity::RegimmTltiu,
        0x0c => CpuInstructionIdentity::RegimmTeqi,
        0x0e => CpuInstructionIdentity::RegimmTnei,
        0x10 => CpuInstructionIdentity::RegimmBltzal,
        0x11 => CpuInstructionIdentity::RegimmBgezal,
        0x12 => CpuInstructionIdentity::RegimmBltzall,
        0x13 => CpuInstructionIdentity::RegimmBgezall,
        _ => CpuInstructionIdentity::RegimmUnknown,
    }
}

fn cop0_identity(rs: u8, bits: u32) -> (r: CpuInstructionIdentity)
    ensures
        r == spec_cop0_identity(rs, bits),
{
    match rs {
        0x00 => CpuInstructionIdentity::Cop0Mfc0,
        0x04 => CpuInstructionIdentity::Cop0Mtc0,
        0x10 => match bits {
            0x4200_0001 => CpuInstructionIdentity::Cop0Tlbr,
            0x4200_0002 => CpuInstructionIdentity::Cop0Tlbwi,
            0x4200_0006 => CpuInstructionIdentity::Cop0Tlbwr,
            0x4200_0008 => CpuInstructionIdentity::Cop0Tlbp,
            0x4200_0018 => CpuInstructionIdentity::Cop0Eret,
            _ => CpuInstructionIdentity::Cop0,
        },
        _ => CpuInstructionIdentity::Cop0,
    }
}

fn primary_identity(opcode: u8) -> (r: CpuInstructionIdentity)
    ensures
        r == spec_primary_identity(opcode),
{
    match opcode {
        0x02 => CpuInstructionIdentity::J,
        0x03 => CpuInstructionIdentity::Jal,
        0x04 => CpuInstructionIdentity::Beq,
        0x05 => CpuInstructionIdentity::Bne,
        0x06 => CpuInstructionIdentity::Blez,
        0x07 => CpuInstructionIdentity::Bgtz,
        0x08 => CpuInstructionIdentity::Addi,
        0x09 => CpuInstructionIdentity::Addiu,
        0x0a => CpuInstructionIdentity::Slti,
        0x0b => CpuInstructionIdentity::Sltiu,
        0x0c => CpuInstructionIdentity::Andi,
        0x0d => CpuInstructionIdentity::Ori,
        0x0e => CpuInstructionIdentity::Xori,
        0x0f => CpuInstructionIdentity::Lui,
        0x12 => CpuInstructionIdentity::Cop2,
        0x13 => CpuInstructionIdentity::Cop3,
        0x14 => CpuInstructionIdentity::Beql,
        0x15 => CpuInstructionIdentity::Bnel,
        0x16 => CpuInstructionIdentity::Blezl,
        0x17 => CpuInstructionIdentity::Bgtzl,
        0x18 => CpuInstructionIdentity::Daddi,
        0x19 => CpuInstructionIdentity::Daddiu,
        0x1a => CpuInstructionIdentity::Ldl,
        0x1b => CpuInstructionIdentity::Ldr,
        0x20 => CpuInstructionIdentity::Lb,
        0x21 => CpuInstructionIdentity::Lh,
        0x22 => CpuInstructionIdentity::Lwl,
        0x23 => CpuInstructionIdentity::Lw,
        0x24 => CpuInstructionIdentity::Lbu,
        0x25 => CpuInstructionIdentity::Lhu,
        0x26 => CpuInstructionIdentity::Lwr,
        0x27 => CpuInstructionIdentity::Lwu,
        0x28 => CpuInstructionIdentity::Sb,
        0x29 => CpuInstructionIdentity::Sh,
        0x2a => CpuInstructionIdentity::Swl,
        0x2b => CpuInstructionIdentity::Sw,
        0x2c => CpuInstructionIdentity::Sdl,
        0x2d => CpuInstructionIdentity::Sdr,
        0x2e => CpuInstructionIdentity::Swr,
        0x2f => CpuInstructionIdentity::Cache,
        0x30 => CpuInstructionIdentity::Ll,
        0x31 => CpuInstructionIdentity::Lwc1,
        0x32 => CpuInstructionIdentity::Lwc2,
        0x34 => CpuInstructionIdentity::Lld,
        0x35 => CpuInstructionIdentity::Ldc1,
        0x36 => CpuInstructionIdentity::Ldc2,
        0x37 => CpuInstructionIdentity::Ld,
        0x38 => CpuInstructionIdentity::Sc,
        0x39 => CpuInstructionIdentity::Swc1,
        0x3a => CpuInstructionIdentity::Swc2,
        0x3c => CpuInstructionIdentity::Scd,
        0x3d => CpuInstructionIdentity::Sdc1,
        0x3e => CpuInstructionIdentity::Sdc2,
        0x3f => CpuInstructionIdentity::Sd,
        _ => CpuInstructionIdentity::UnknownPrimary,
    }
}

pub fn identify_cpu_instruction(instruction: CpuInstructionFields) -> (r: CpuInstructionIdentity)
    ensures
        r == spec_identify_fields(instruction),
{
    match instruction.opcode() {
        0x00 => special_identity(instruction.funct()),
        0x01 => regimm_identity(instruction.rt()),
        0x10 => cop0_identity(instruction.rs(), instruction.raw().bits()),
        0x11 => match instruction.rs() {
            0x02 => CpuInstructionIdentity::Cop1Cfc1,
            0x06 => CpuInstructionIdentity::Cop1Ctc1,
            _ => CpuInstructionIdentity::Cop1,
        },
        _ => primary_identity(instruction.opcode()),
    }
}

/// The all-zero word (the canonical NOP) decodes to SPECIAL SLL.
pub proof fn lemma_zero_word_is_sll(fields: CpuInstructionFields)
    requires
        decodes_from(fields, 0),
    ensures
        spec_identify_fields(fields) == CpuInstructionIdentity::SpecialSll,
{
}

} // verus!
