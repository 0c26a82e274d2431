use vstd::prelude::*;

pub mod address;
pub mod cache;
pub mod cop0;
pub mod cop1;
pub mod execution;
pub mod instruction;
pub mod registers;
pub mod scalars;

use cache::{spec_cold_primary_caches, MachinePrimaryCaches, PrimaryCachesState};
use cop0::Cop0;
use cop1::Cop1;
use scalars::CpuDelaySlotContext;

verus! {

/// Number of general-purpose registers.
pub const CPU_GPR_COUNT: usize = 32;

/// PC of a CPU built without a boot handoff: the PIF boot ROM reset vector.
pub const NON_BOOT_RESET_VECTOR_PC: u32 = 0xbfc0_0000;

/// Next PC paired with [`NON_BOOT_RESET_VECTOR_PC`].
pub const NON_BOOT_RESET_VECTOR_NEXT_PC: u32 = 0xbfc0_0004;

/// The VR4300 core: control flow, integer registers, COP0, COP1 and the primary caches.
pub struct Cpu {
    pc: u32,
    next_pc: u32,
    delay_slot_context: Option<CpuDelaySlotContext>,
    hi: u64,
    lo: u64,
    gprs: [u64; 32],
    cop0: Cop0,
    cop1: Cop1,
    primary_caches: Box<MachinePrimaryCaches>,
}

/// The abstract state of a [`Cpu`]. `gprs` holds the stored register words; register 0
/// always reads as zero (see [`CpuState::gpr`]).
pub ghost struct CpuState {
    pub pc: u32,
    pub next_pc: u32,
    pub delay_slot_context: Option<CpuDelaySlotContext>,
    pub hi: u64,
    pub lo: u64,
    pub gprs: Seq<u64>,
    pub cop0: Cop0,
    pub cop1: Cop1,
    pub caches: PrimaryCachesState,
}

impl CpuState {
    /// The value a read of general-purpose register `index` gives.
    pub open spec fn gpr(self, index: int) -> u64 {
        if index == 0 {
            0
        } else {
            self.gprs[index]
        }
    }

    /// The register file as reads see it.
    pub open spec fn gpr_values(self) -> Seq<u64> {
        Seq::new(32, |i: int| self.gpr(i))
    }
}

impl View for Cpu {
    type V = CpuState;

    closed spec fn view(&self) -> CpuState {
        CpuState {
            pc: self.pc,
            next_pc: self.next_pc,
            delay_slot_context: self.delay_slot_context,
            hi: self.hi,
            lo: self.lo,
            gprs: self.gprs@,
            cop0: self.cop0,
            cop1: self.cop1,
            caches: self.primary_caches@,
        }
    }
}

impl Cpu {
    /// The register-file length never changes.
    pub proof fn lemma_gpr_count(&self)
        ensures
            self@.gprs.len() == 32,
    {
    }

    pub fn new() -> (r: Self)
        ensures
            r@.pc == NON_BOOT_RESET_VECTOR_PC,
            r@.next_pc == NON_BOOT_RESET_VECTOR_NEXT_PC,
            r@.delay_slot_context is None,
            r@.hi == 0,
            r@.lo == 0,
            r@.gprs == Seq::new(32, |i: int| 0u64),
            r@.cop0.spec_is_new(),
            r@.cop1.spec_is_new(),
            r@.caches == spec_cold_primary_caches(),
    {
        let r = Self {
            pc: NON_BOOT_RESET_VECTOR_PC,
            next_pc: NON_BOOT_RESET_VECTOR_NEXT_PC,
            delay_slot_context: None,
            hi: 0,
            lo: 0,
            gprs: [0u64; 32],
            cop0: Cop0::new(),
            cop1: Cop1::new(),
            primary_caches: Box::new(MachinePrimaryCaches::new()),
        };
        assert(r.gprs@ =~= Seq::new(32, |i: int| 0u64));
        r
    }
}

} // verus!
