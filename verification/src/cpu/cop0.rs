use super::address::{
    CpuAddress, CpuAddressErrorExceptionEntryError, CpuAddressErrorKind, CpuDataAddressError,
};
use super::cache::{MachineCop0TagState, MachineCop0TagWriteProvenance};
use super::scalars::{spec_sequential_instruction_address, CpuDelaySlotContext};
use super::{Cpu, CpuState};
use crate::text::{push_decimal, push_hex_digits, push_str, spec_decimal, spec_hex_digits};
use vstd::prelude::*;

verus! {

pub const COP0_STATUS_INTERRUPT_ENABLE: u32 = 0x0000_0001;
pub const COP0_STATUS_EXL: u32 = 0x0000_0002;
pub const COP0_STATUS_ERL: u32 = 0x0000_0004;
pub const COP0_STATUS_INTERRUPT_MASK: u32 = 0x0000_ff00;
pub const COP0_CAUSE_SOFTWARE_INTERRUPT_PENDING_MASK: u32 = 0x0000_0300;
pub const COP0_CAUSE_RCP_INTERRUPT_PENDING: u32 = 0x0000_0400;
pub const COP0_CAUSE_TIMER_INTERRUPT_PENDING: u32 = 0x0000_8000;
pub const COP0_CAUSE_EXCEPTION_CODE_SHIFT: u32 = 2;
pub const COP0_CAUSE_BRANCH_DELAY: u32 = 0x8000_0000;
pub const COP0_EXCEPTION_CODE_SIGNED_OVERFLOW: u8 = 12;
pub const LOCAL_EXCEPTION_VECTOR_PC: u32 = 0x8000_0180;
pub const LOCAL_EXCEPTION_VECTOR_NEXT_PC: u32 = 0x8000_0184;
pub const COP0_ENTRY_HI_DEFINED_32_BIT_MASK: u32 = 0xffff_e0ff;
pub const COP0_ENTRY_LO_DEFINED_32_BIT_MASK: u32 = 0x3fff_ffff;
pub const COP0_INDEX_DEFINED_32_BIT_MASK: u32 = 0x8000_003f;
pub const COP0_PAGE_MASK_DEFINED_32_BIT_MASK: u32 = 0x01ff_e000;
pub const COP0_CONTEXT_PTE_BASE_MASK: u32 = 0xff80_0000;
pub const COP0_CONTEXT_BAD_VPN2_MASK: u32 = 0x007f_fff0;
pub const COP0_TLB_ENTRY_COUNT: usize = 32;

/// One TLB entry as the working registers wrote it.
#[derive(Debug, Clone, Copy, PartialEq, Eq, Structural)]
pub struct MachineCop0TlbEntry {
    pub page_mask: u32,
    pub entry_hi: u32,
    pub entry_lo0: u32,
    pub entry_lo1: u32,
}

impl MachineCop0TlbEntry {
    /// Both halves carry the G bit.
    pub open spec fn spec_global(self) -> bool {
        self.entry_lo0 & 1 != 0 && self.entry_lo1 & 1 != 0
    }

    /// The entry translates `entry_hi`: the VPN2 bits outside the page mask agree, and the
    /// ASIDs agree unless the entry is global.
    pub open spec fn spec_matches(self, entry_hi: u32) -> bool {
        let mask = !(self.page_mask | 0x0000_1fff);
        &&& (self.entry_hi & mask) == (entry_hi & mask)
        &&& (self.spec_global() || (self.entry_hi as u8) == (entry_hi as u8))
    }

    pub fn new(page_mask: u32, entry_hi: u32, entry_lo0: u32, entry_lo1: u32) -> (r: Self)
        ensures
            r == (MachineCop0TlbEntry { page_mask, entry_hi, entry_lo0, entry_lo1 }),
    {
        Self { page_mask, entry_hi, entry_lo0, entry_lo1 }
    }

    pub fn page_mask(self) -> (r: u32)
        ensures
            r == self.page_mask,
    {
        self.page_mask
    }

    pub fn entry_hi(self) -> (r: u32)
        ensures
            r == self.entry_hi,
    {
        self.entry_hi
    }

    pub fn entry_lo0(self) -> (r: u32)
        ensures
            r == self.entry_lo0,
    {
        self.entry_lo0
    }

    pub fn entry_lo1(self) -> (r: u32)
        ensures
            r == self.entry_lo1,
    {
        self.entry_lo1
    }

    pub fn global(self) -> (r: bool)
        ensures
            r == self.spec_global(),
    {
        self.entry_lo0 & 1 != 0 && self.entry_lo1 & 1 != 0
    }

    pub fn matches(self, entry_hi: u32) -> (r: bool)
        ensures
            r == self.spec_matches(entry_hi),
    {
        let vpn_comparison_mask = !(self.page_mask | 0x0000_1fff);
        (self.entry_hi & vpn_comparison_mask) == (entry_hi & vpn_comparison_mask) && (
        self.global() || (self.entry_hi as u8) == (entry_hi as u8))
    }
}

/// Why a TLB instruction could not run.
#[derive(Debug, Clone, Copy, PartialEq, Eq, Structural)]
pub enum MachineCop0TlbOperationError {
    IndexUnavailable,
    IndexOutOfRange { index: u8 },
    EntryUnavailable { index: u8 },
    WorkingRegistersUnavailable,
}

/// ERET could not return.
#[derive(Debug, Clone, Copy, PartialEq, Eq, Structural)]
pub enum CpuCop0ExceptionReturnError {
    ErrorEpcUnavailable { status: u32 },
}

impl CpuCop0ExceptionReturnError {
    /// The error message.
    pub fn to_string(&self) -> (r: String)
        ensures
            r@ == "CPU COP0 ERET requires unavailable ErrorEPC while Status.ERL is set: status=0x"@
                + spec_hex_digits(self->status as nat, 8),
    {
        let mut s = String::new();
        match self {
            CpuCop0ExceptionReturnError::ErrorEpcUnavailable { status } => {
                push_str(
                    &mut s,
                    "CPU COP0 ERET requires unavailable ErrorEPC while Status.ERL is set: status=0x",
                );
                push_hex_digits(&mut s, *status as u64, 8);
            },
        }
        s
    }
}

/// The system control coprocessor's registers. A register that no instruction has
/// written and that construction does not define is `None`.
#[derive(Debug, Clone, Copy)]
pub struct Cop0 {
    pub count: u32,
    pub compare: u32,
    pub timer_interrupt_pending: bool,
    pub status: u32,
    pub software_interrupt_pending: u32,
    pub software_interrupt_pending_known: bool,
    pub rcp_interrupt_pending: bool,
    pub epc: u32,
    pub bad_vaddr: u32,
    pub index: Option<u32>,
    pub random: u8,
    pub entry_lo0: Option<u32>,
    pub entry_lo1: Option<u32>,
    pub context: Option<u32>,
    pub page_mask: Option<u32>,
    pub wired: u8,
    pub entry_hi: u32,
    pub tlb_entries: [Option<MachineCop0TlbEntry>; 32],
    pub exception_code: u8,
    pub exception_branch_delay: bool,
    pub tag_lo: Option<MachineCop0TagState>,
    pub tag_hi: Option<MachineCop0TagState>,
}

/// Whether TLB slot `entry` translates `entry_hi`.
pub open spec fn spec_tlb_slot_matches(entry: Option<MachineCop0TlbEntry>, entry_hi: u32) -> bool {
    match entry {
        Some(e) => e.spec_matches(entry_hi),
        None => false,
    }
}

/// The TLB working entry, when all the working registers are defined.
pub open spec fn spec_working_tlb_entry(c: Cop0) -> Option<MachineCop0TlbEntry> {
    match (c.page_mask, c.entry_lo0, c.entry_lo1) {
        (Some(page_mask), Some(entry_lo0), Some(entry_lo1)) => Some(
            MachineCop0TlbEntry { page_mask, entry_hi: c.entry_hi, entry_lo0, entry_lo1 },
        ),
        _ => None,
    }
}

/// The TLB slot the Index register names.
pub open spec fn spec_indexed_tlb_slot(c: Cop0) -> Result<int, MachineCop0TlbOperationError> {
    match c.index {
        None => Err(MachineCop0TlbOperationError::IndexUnavailable),
        Some(word) => Ok((word & 0x3f) as int),
    }
}

/// Count advanced by one committed step: it wraps, and reaching Compare latches the timer
/// interrupt.
pub open spec fn spec_advance_count(c: Cop0) -> Cop0 {
    let count = ((c.count as int + 1) % 0x1_0000_0000) as u32;
    Cop0 {
        count,
        timer_interrupt_pending: c.timer_interrupt_pending || count == c.compare,
        ..c
    }
}

/// Random after one committed instruction: it counts down from 31 to Wired, then wraps.
pub open spec fn spec_advance_random(c: Cop0) -> Cop0 {
    Cop0 {
        random: if c.random <= c.wired {
            31
        } else {
            (c.random - 1) as u8
        },
        ..c
    }
}

/// The pending-interrupt bits of Cause: software, RCP (IP2) and timer (IP7).
pub open spec fn spec_pending_interrupt_word(c: Cop0) -> u32 {
    c.software_interrupt_pending | (if c.rcp_interrupt_pending {
        COP0_CAUSE_RCP_INTERRUPT_PENDING
    } else {
        0
    }) | (if c.timer_interrupt_pending {
        COP0_CAUSE_TIMER_INTERRUPT_PENDING
    } else {
        0
    })
}

/// The Cause register, when its software-interrupt bits are known.
pub open spec fn spec_cause_word(c: Cop0) -> Option<u32> {
    if !c.software_interrupt_pending_known {
        None
    } else {
        Some(
            spec_pending_interrupt_word(c) | ((c.exception_code as u32) << 2u32) | (
            if c.exception_branch_delay {
                COP0_CAUSE_BRANCH_DELAY
            } else {
                0
            }),
        )
    }
}

/// An interrupt is taken: interrupts enabled, not at exception or error level, and an
/// unmasked interrupt is pending.
pub open spec fn spec_interrupt_should_enter(c: Cop0) -> bool {
    &&& c.status & COP0_STATUS_INTERRUPT_ENABLE != 0
    &&& c.status & (COP0_STATUS_EXL | COP0_STATUS_ERL) == 0
    &&& c.status & COP0_STATUS_INTERRUPT_MASK & spec_pending_interrupt_word(c) != 0
}

impl Cop0 {
    /// The registers at construction.
    pub open spec fn spec_is_new(self) -> bool {
        &&& self.count == 0
        &&& self.compare == 0
        &&& !self.timer_interrupt_pending
        &&& self.status == 0
        &&& self.software_interrupt_pending == 0
        &&& !self.software_interrupt_pending_known
        &&& !self.rcp_interrupt_pending
        &&& self.epc == 0
        &&& self.bad_vaddr == 0
        &&& self.index is None
        &&& self.random == 31
        &&& self.entry_lo0 is None
        &&& self.entry_lo1 is None
        &&& self.context is None
        &&& self.page_mask is None
        &&& self.wired == 0
        &&& self.entry_hi == 0
        &&& self.tlb_entries@ == Seq::new(32, |i: int| None::<MachineCop0TlbEntry>)
        &&& self.exception_code == 0
        &&& !self.exception_branch_delay
        &&& self.tag_lo is None
        &&& self.tag_hi is None
    }

    pub fn new() -> (r: Self)
        ensures
            r.spec_is_new(),
    {
        let r = Cop0 {
            count: 0,
            compare: 0,
            timer_interrupt_pending: false,
            status: 0,
            software_interrupt_pending: 0,
            software_interrupt_pending_known: false,
            rcp_interrupt_pending: false,
            epc: 0,
            bad_vaddr: 0,
            index: None,
            random: 31,
            entry_lo0: None,
            entry_lo1: None,
            context: None,
            page_mask: None,
            wired: 0,
            entry_hi: 0,
            tlb_entries: [None; 32],
            exception_code: 0,
            exception_branch_delay: false,
            tag_lo: None,
            tag_hi: None,
        };
        assert(r.tlb_entries@ =~= Seq::new(32, |i: int| None::<MachineCop0TlbEntry>));
        r
    }
}

impl Cop0 {
    pub fn advance_count_for_committed_step(&mut self)
        ensures
            *final(self) == spec_advance_count(*old(self)),
    {
        self.count = self.count.wrapping_add(1);
        if self.count == self.compare {
            self.timer_interrupt_pending = true;
        }
    }

    pub fn advance_random_for_committed_instruction(&mut self)
        ensures
            *final(self) == spec_advance_random(*old(self)),
    {
        if self.random <= self.wired {
            self.random = (COP0_TLB_ENTRY_COUNT - 1) as u8;
        } else {
            self.random = self.random - 1;
        }
    }

    pub fn write_cause_software_interrupt_pending(&mut self, value: u32)
        ensures
            *final(self) == (Cop0 {
                software_interrupt_pending: value & COP0_CAUSE_SOFTWARE_INTERRUPT_PENDING_MASK,
                software_interrupt_pending_known: true,
                ..*old(self)
            }),
    {
        self.software_interrupt_pending = value & COP0_CAUSE_SOFTWARE_INTERRUPT_PENDING_MASK;
        self.software_interrupt_pending_known = true;
    }

    pub fn pending_interrupt_word(&self) -> (r: u32)
        ensures
            r == spec_pending_interrupt_word(*self),
    {
        self.software_interrupt_pending | (if self.rcp_interrupt_pending {
            COP0_CAUSE_RCP_INTERRUPT_PENDING
        } else {
            0
        }) | (if self.timer_interrupt_pending {
            COP0_CAUSE_TIMER_INTERRUPT_PENDING
        } else {
            0
        })
    }

    pub fn write_compare(&mut self, value: u32)
        ensures
            *final(self) == (Cop0 { compare: value, timer_interrupt_pending: false, ..*old(self) }),
    {
        self.compare = value;
        self.timer_interrupt_pending = false;
    }

    pub fn write_context(&mut self, value: u32)
        ensures
            *final(self) == (Cop0 {
                context: Some(
                    (value & COP0_CONTEXT_PTE_BASE_MASK) | (match old(self).context {
                        Some(c) => c,
                        None => 0,
                    } & COP0_CONTEXT_BAD_VPN2_MASK),
                ),
                ..*old(self)
            }),
    {
        let previous = match self.context {
            Some(c) => c,
            None => 0,
        };
        let previous_bad_vpn2 = previous & COP0_CONTEXT_BAD_VPN2_MASK;
        self.context = Some((value & COP0_CONTEXT_PTE_BASE_MASK) | previous_bad_vpn2);
    }

    pub fn write_wired(&mut self, value: u32)
        ensures
            *final(self) == (Cop0 { wired: (value & 0x3f) as u8, random: 31, ..*old(self) }),
    {
        self.wired = (value & 0x3f) as u8;
        self.random = (COP0_TLB_ENTRY_COUNT - 1) as u8;
    }

    pub fn tlb_entry(&self, index: usize) -> (r: Option<MachineCop0TlbEntry>)
        ensures
            r == (if index < 32 {
                self.tlb_entries@[index as int]
            } else {
                None
            }),
    {
        if index < COP0_TLB_ENTRY_COUNT {
            self.tlb_entries[index]
        } else {
            None
        }
    }

    pub fn working_tlb_entry(&self) -> (r: Result<MachineCop0TlbEntry, MachineCop0TlbOperationError>)
        ensures
            r == (match spec_working_tlb_entry(*self) {
                Some(e) => Ok(e),
                None => Err(MachineCop0TlbOperationError::WorkingRegistersUnavailable),
            }),
    {
        let page_mask = match self.page_mask {
            Some(v) => v,
            None => {
                return Err(MachineCop0TlbOperationError::WorkingRegistersUnavailable);
            },
        };
        let entry_lo0 = match self.entry_lo0 {
            Some(v) => v,
            None => {
                return Err(MachineCop0TlbOperationError::WorkingRegistersUnavailable);
            },
        };
        let entry_lo1 = match self.entry_lo1 {
            Some(v) => v,
            None => {
                return Err(MachineCop0TlbOperationError::WorkingRegistersUnavailable);
            },
        };
        Ok(MachineCop0TlbEntry::new(page_mask, self.entry_hi, entry_lo0, entry_lo1))
    }

    pub fn indexed_tlb_slot(&self) -> (r: Result<usize, MachineCop0TlbOperationError>)
        ensures
            match spec_indexed_tlb_slot(*self) {
                Ok(i) => if i < 32 {
                    r == Ok::<usize, MachineCop0TlbOperationError>(i as usize)
                } else {
                    r == Err::<usize, MachineCop0TlbOperationError>(
                        MachineCop0TlbOperationError::IndexOutOfRange { index: i as u8 },
                    )
                },
                Err(e) => r == Err::<usize, MachineCop0TlbOperationError>(e),
            },
            r is Ok ==> r->Ok_0 < 32,
    {
        let index_word = match self.index {
            Some(w) => w,
            None => {
                return Err(MachineCop0TlbOperationError::IndexUnavailable);
            },
        };
        assert(index_word & 0x3f < 64) by (bit_vector);
        let index = (index_word & 0x3f) as u8;
        if index as usize >= COP0_TLB_ENTRY_COUNT {
            return Err(MachineCop0TlbOperationError::IndexOutOfRange { index });
        }
        Ok(index as usize)
    }

    pub fn write_tlb_indexed(&mut self) -> (r: Result<u8, MachineCop0TlbOperationError>)
        ensures
            match (spec_indexed_tlb_slot(*old(self)), spec_working_tlb_entry(*old(self))) {
                (Err(e), _) => r == Err::<u8, MachineCop0TlbOperationError>(e)
                    && *final(self) == *old(self),
                (Ok(i), _) if i >= 32 => r == Err::<u8, MachineCop0TlbOperationError>(
                    MachineCop0TlbOperationError::IndexOutOfRange { index: i as u8 },
                ) && *final(self) == *old(self),
                (Ok(i), None) => r == Err::<u8, MachineCop0TlbOperationError>(
                    MachineCop0TlbOperationError::WorkingRegistersUnavailable,
                ) && *final(self) == *old(self),
                (Ok(i), Some(e)) => r == Ok::<u8, MachineCop0TlbOperationError>(i as u8)
                    && final(self).tlb_entries@ == old(self).tlb_entries@.update(i, Some(e))
                    && *final(self) == (Cop0 { tlb_entries: final(self).tlb_entries, ..*old(self) }),
            },
    {
        let index = match self.indexed_tlb_slot() {
            Ok(i) => i,
            Err(e) => {
                return Err(e);
            },
        };
        let entry = match self.working_tlb_entry() {
            Ok(e) => e,
            Err(e) => {
                return Err(e);
            },
        };
        self.tlb_entries[index] = Some(entry);
        Ok(index as u8)
    }

    pub fn write_tlb_random(&mut self) -> (r: Result<u8, MachineCop0TlbOperationError>)
        requires
            old(self).random < 32,
        ensures
            match spec_working_tlb_entry(*old(self)) {
                None => r == Err::<u8, MachineCop0TlbOperationError>(
                    MachineCop0TlbOperationError::WorkingRegistersUnavailable,
                ) && *final(self) == *old(self),
                Some(e) => r == Ok::<u8, MachineCop0TlbOperationError>(old(self).random)
                    && final(self).tlb_entries@ == old(self).tlb_entries@.update(
                    old(self).random as int,
                    Some(e),
                ) && *final(self) == (Cop0 { tlb_entries: final(self).tlb_entries, ..*old(self) }),
            },
    {
        let index = self.random as usize;
        let entry = match self.working_tlb_entry() {
            Ok(e) => e,
            Err(e) => {
                return Err(e);
            },
        };
        self.tlb_entries[index] = Some(entry);
        Ok(index as u8)
    }

    pub fn read_tlb_indexed(&mut self) -> (r: Result<u8, MachineCop0TlbOperationError>)
        ensures
            match spec_indexed_tlb_slot(*old(self)) {
                Err(e) => r == Err::<u8, MachineCop0TlbOperationError>(e)
                    && *final(self) == *old(self),
                Ok(i) => if i >= 32 {
                    r == Err::<u8, MachineCop0TlbOperationError>(
                        MachineCop0TlbOperationError::IndexOutOfRange { index: i as u8 },
                    ) && *final(self) == *old(self)
                } else {
                    match old(self).tlb_entries@[i] {
                        None => r == Err::<u8, MachineCop0TlbOperationError>(
                            MachineCop0TlbOperationError::EntryUnavailable { index: i as u8 },
                        ) && *final(self) == *old(self),
                        Some(e) => r == Ok::<u8, MachineCop0TlbOperationError>(i as u8)
                            && *final(self) == (Cop0 {
                            page_mask: Some(e.page_mask),
                            entry_hi: e.entry_hi,
                            entry_lo0: Some(e.entry_lo0),
                            entry_lo1: Some(e.entry_lo1),
                            ..*old(self)
                        }),
                    }
                },
            },
    {
        let index = match self.indexed_tlb_slot() {
            Ok(i) => i,
            Err(e) => {
                return Err(e);
            },
        };
        let entry = match self.tlb_entries[index] {
            Some(e) => e,
            None => {
                return Err(MachineCop0TlbOperationError::EntryUnavailable { index: index as u8 });
            },
        };
        self.page_mask = Some(entry.page_mask());
        self.entry_hi = entry.entry_hi();
        self.entry_lo0 = Some(entry.entry_lo0());
        self.entry_lo1 = Some(entry.entry_lo1());
        Ok(index as u8)
    }

    /// Finds the first TLB slot that translates EntryHi and records it in Index; no match
    /// records the probe-failure bit.
    pub fn probe_tlb(&mut self) -> (r: Option<u8>)
        ensures
            match r {
                Some(i) => {
                    &&& i < 32
                    &&& spec_tlb_slot_matches(old(self).tlb_entries@[i as int], old(self).entry_hi)
                    &&& forall|j: int|
                        0 <= j < i ==> !spec_tlb_slot_matches(
                            #[trigger] old(self).tlb_entries@[j],
                            old(self).entry_hi,
                        )
                    &&& *final(self) == (Cop0 { index: Some(i as u32), ..*old(self) })
                },
                None => {
                    &&& forall|j: int|
                        0 <= j < 32 ==> !spec_tlb_slot_matches(
                            #[trigger] old(self).tlb_entries@[j],
                            old(self).entry_hi,
                        )
                    &&& *final(self) == (Cop0 { index: Some(0x8000_0000), ..*old(self) })
                },
            },
    {
        let mut i: usize = 0;
        let mut found: Option<u8> = None;
        while i < COP0_TLB_ENTRY_COUNT
            invariant_except_break
                i <= 32,
                found is None,
                forall|j: int|
                    0 <= j < i ==> !spec_tlb_slot_matches(
                        #[trigger] self.tlb_entries@[j],
                        self.entry_hi,
                    ),
            ensures
                match found {
                    Some(k) => {
                        &&& k < 32
                        &&& spec_tlb_slot_matches(self.tlb_entries@[k as int], self.entry_hi)
                        &&& forall|j: int|
                            0 <= j < k ==> !spec_tlb_slot_matches(
                                #[trigger] self.tlb_entries@[j],
                                self.entry_hi,
                            )
                    },
                    None => forall|j: int|
                        0 <= j < 32 ==> !spec_tlb_slot_matches(
                            #[trigger] self.tlb_entries@[j],
                            self.entry_hi,
                        ),
                },
            decreases 32 - i,
        {
            let hit = match self.tlb_entries[i] {
                Some(entry) => entry.matches(self.entry_hi),
                None => false,
            };
            if hit {
                found = Some(i as u8);
                break;
            }
            i = i + 1;
        }
        self.index = Some(
            match found {
                Some(k) => k as u32,
                None => 0x8000_0000,
            },
        );
        found
    }
}

/// Exception entry state for a synchronous exception: EPC and the branch-delay bit, or
/// `None` when EXL is already set or the faulting instruction cannot be located.
pub open spec fn spec_synchronous_exception_lineage(s: CpuState) -> Option<(u32, bool)> {
    if s.cop0.status & COP0_STATUS_EXL != 0 {
        None
    } else {
        match s.delay_slot_context {
            Some(context) => Some((context.branch_or_jump_pc, true)),
            None => if s.next_pc == spec_sequential_instruction_address(s.pc) {
                Some((s.pc, false))
            } else {
                None
            },
        }
    }
}

/// The state after entering the local exception vector with `code`, EPC and the
/// branch-delay bit from `lineage`, and BadVAddr `bad_vaddr` when one is given.
pub open spec fn spec_exception_entry(
    s: CpuState,
    lineage: (u32, bool),
    code: u8,
    bad_vaddr: Option<u32>,
) -> CpuState {
    CpuState {
        pc: LOCAL_EXCEPTION_VECTOR_PC,
        next_pc: LOCAL_EXCEPTION_VECTOR_NEXT_PC,
        delay_slot_context: None,
        cop0: Cop0 {
            epc: lineage.0,
            bad_vaddr: match bad_vaddr {
                Some(v) => v,
                None => s.cop0.bad_vaddr,
            },
            exception_code: code,
            exception_branch_delay: lineage.1,
            status: s.cop0.status | COP0_STATUS_EXL,
            ..s.cop0
        },
        ..s
    }
}

/// TLBR: loads the indexed TLB entry into the working registers.
pub open spec fn spec_tlb_read_post(
    old: CpuState,
    new: CpuState,
    r: Result<u8, MachineCop0TlbOperationError>,
) -> bool {
    match spec_indexed_tlb_slot(old.cop0) {
        Err(e) => r == Err::<u8, MachineCop0TlbOperationError>(e) && new == old,
        Ok(i) => if i >= 32 {
            r == Err::<u8, MachineCop0TlbOperationError>(
                MachineCop0TlbOperationError::IndexOutOfRange { index: i as u8 },
            ) && new == old
        } else {
            match old.cop0.tlb_entries@[i] {
                None => r == Err::<u8, MachineCop0TlbOperationError>(
                    MachineCop0TlbOperationError::EntryUnavailable { index: i as u8 },
                ) && new == old,
                Some(e) => r == Ok::<u8, MachineCop0TlbOperationError>(i as u8) && new == (
                CpuState {
                    cop0: Cop0 {
                        page_mask: Some(e.page_mask),
                        entry_hi: e.entry_hi,
                        entry_lo0: Some(e.entry_lo0),
                        entry_lo1: Some(e.entry_lo1),
                        ..old.cop0
                    },
                    ..old
                }),
            }
        },
    }
}

/// `new` is `old` with TLB slot `i` holding `e`.
pub open spec fn spec_tlb_slot_written(old: CpuState, new: CpuState, i: int, e: MachineCop0TlbEntry) -> bool {
    &&& new.cop0.tlb_entries@ == old.cop0.tlb_entries@.update(i, Some(e))
    &&& new == (CpuState {
        cop0: Cop0 { tlb_entries: new.cop0.tlb_entries, ..old.cop0 },
        ..old
    })
}

/// TLBWI: writes the working entry to the indexed slot.
pub open spec fn spec_tlb_write_indexed_post(
    old: CpuState,
    new: CpuState,
    r: Result<u8, MachineCop0TlbOperationError>,
) -> bool {
    match (spec_indexed_tlb_slot(old.cop0), spec_working_tlb_entry(old.cop0)) {
        (Err(e), _) => r == Err::<u8, MachineCop0TlbOperationError>(e) && new == old,
        (Ok(i), _) if i >= 32 => r == Err::<u8, MachineCop0TlbOperationError>(
            MachineCop0TlbOperationError::IndexOutOfRange { index: i as u8 },
        ) && new == old,
        (Ok(i), None) => r == Err::<u8, MachineCop0TlbOperationError>(
            MachineCop0TlbOperationError::WorkingRegistersUnavailable,
        ) && new == old,
        (Ok(i), Some(e)) => r == Ok::<u8, MachineCop0TlbOperationError>(i as u8)
            && spec_tlb_slot_written(old, new, i, e),
    }
}

/// TLBWR: writes the working entry to the slot Random names.
pub open spec fn spec_tlb_write_random_post(
    old: CpuState,
    new: CpuState,
    r: Result<u8, MachineCop0TlbOperationError>,
) -> bool {
    match spec_working_tlb_entry(old.cop0) {
        None => r == Err::<u8, MachineCop0TlbOperationError>(
            MachineCop0TlbOperationError::WorkingRegistersUnavailable,
        ) && new == old,
        Some(e) => r == Ok::<u8, MachineCop0TlbOperationError>(old.cop0.random)
            && spec_tlb_slot_written(old, new, old.cop0.random as int, e),
    }
}

/// TLBP: Index names the first slot that translates EntryHi, or has the probe-failure bit.
pub open spec fn spec_tlb_probe_post(old: CpuState, new: CpuState, r: Option<u8>) -> bool {
    match r {
        Some(i) => {
            &&& i < 32
            &&& spec_tlb_slot_matches(old.cop0.tlb_entries@[i as int], old.cop0.entry_hi)
            &&& forall|j: int|
                0 <= j < i ==> !spec_tlb_slot_matches(
                    #[trigger] old.cop0.tlb_entries@[j],
                    old.cop0.entry_hi,
                )
            &&& new == (CpuState { cop0: Cop0 { index: Some(i as u32), ..old.cop0 }, ..old })
        },
        None => {
            &&& forall|j: int|
                0 <= j < 32 ==> !spec_tlb_slot_matches(
                    #[trigger] old.cop0.tlb_entries@[j],
                    old.cop0.entry_hi,
                )
            &&& new == (CpuState { cop0: Cop0 { index: Some(0x8000_0000), ..old.cop0 }, ..old })
        },
    }
}

/// ERET: with ERL clear, clears EXL and resumes at EPC; with ERL set, is refused.
pub open spec fn spec_exception_return_post(
    old: CpuState,
    new: CpuState,
    r: Result<(), CpuCop0ExceptionReturnError>,
) -> bool {
    if old.cop0.status & COP0_STATUS_ERL != 0 {
        r == Err::<(), CpuCop0ExceptionReturnError>(
            CpuCop0ExceptionReturnError::ErrorEpcUnavailable { status: old.cop0.status },
        ) && new == old
    } else {
        r is Ok && new == (CpuState {
            pc: old.cop0.epc,
            next_pc: spec_sequential_instruction_address(old.cop0.epc),
            cop0: Cop0 { status: old.cop0.status & !COP0_STATUS_EXL, ..old.cop0 },
            ..old
        })
    }
}

/// Random never leaves `0..32`: construction, Wired writes and the countdown keep it there.
pub proof fn lemma_random_stays_in_range(c: Cop0, value: u32)
    requires
        c.random < 32,
    ensures
        spec_advance_random(c).random < 32,
        spec_advance_random(spec_advance_count(c)).random < 32,
        (Cop0 { wired: (value & 0x3f) as u8, random: 31, ..c }).random < 32,
{
}

/// An arithmetic-overflow exception entry that could not be taken.
#[derive(Debug, Clone, Copy, PartialEq, Eq, Structural)]
pub struct CpuArithmeticOverflowExceptionEntryError {
    pub pc: CpuAddress,
    pub next_pc: CpuAddress,
    pub status: u32,
}

impl CpuArithmeticOverflowExceptionEntryError {
    /// The error message.
    pub fn to_string(&self) -> (r: String)
        ensures
            r@ == "CPU arithmetic overflow exception entry blocked: pc="@ + spec_decimal(
                self.pc@ as nat,
            ) + " next_pc="@ + spec_decimal(self.next_pc@ as nat) + " status="@ + spec_decimal(
                self.status as nat,
            ),
    {
        let mut s = String::new();
        push_str(&mut s, "CPU arithmetic overflow exception entry blocked: pc=");
        push_decimal(&mut s, self.pc.value() as u64);
        push_str(&mut s, " next_pc=");
        push_decimal(&mut s, self.next_pc.value() as u64);
        push_str(&mut s, " status=");
        push_decimal(&mut s, self.status as u64);
        s
    }

    pub fn new(pc: CpuAddress, next_pc: CpuAddress, status: u32) -> (r: Self)
        ensures
            r == (CpuArithmeticOverflowExceptionEntryError { pc, next_pc, status }),
    {
        Self { pc, next_pc, status }
    }

    pub fn pc(self) -> (r: CpuAddress)
        ensures
            r == self.pc,
    {
        self.pc
    }

    pub fn next_pc(self) -> (r: CpuAddress)
        ensures
            r == self.next_pc,
    {
        self.next_pc
    }

    pub fn status(self) -> (r: u32)
        ensures
            r == self.status,
    {
        self.status
    }
}

impl Cpu {
    pub fn cop0_count(&self) -> (r: u32)
        ensures
            r == self@.cop0.count,
    {
        self.cop0.count
    }

    pub fn cop0_compare(&self) -> (r: u32)
        ensures
            r == self@.cop0.compare,
    {
        self.cop0.compare
    }

    pub fn cop0_timer_interrupt_pending(&self) -> (r: bool)
        ensures
            r == self@.cop0.timer_interrupt_pending,
    {
        self.cop0.timer_interrupt_pending
    }

    pub fn cop0_status(&self) -> (r: u32)
        ensures
            r == self@.cop0.status,
    {
        self.cop0.status
    }

    pub fn cop0_software_interrupt_pending(&self) -> (r: u32)
        ensures
            r == self@.cop0.software_interrupt_pending,
    {
        self.cop0.software_interrupt_pending
    }

    pub fn cop0_software_interrupt_pending_known(&self) -> (r: bool)
        ensures
            r == self@.cop0.software_interrupt_pending_known,
    {
        self.cop0.software_interrupt_pending_known
    }

    pub fn cop0_rcp_interrupt_pending(&self) -> (r: bool)
        ensures
            r == self@.cop0.rcp_interrupt_pending,
    {
        self.cop0.rcp_interrupt_pending
    }

    pub fn cop0_pending_interrupt_word(&self) -> (r: u32)
        ensures
            r == spec_pending_interrupt_word(self@.cop0),
    {
        self.cop0.pending_interrupt_word()
    }

    pub fn cop0_cause_word(&self) -> (r: Option<u32>)
        ensures
            r == spec_cause_word(self@.cop0),
    {
        if !self.cop0.software_interrupt_pending_known {
            return None;
        }
        Some(
            self.cop0.pending_interrupt_word() | ((self.cop0.exception_code as u32)
                << COP0_CAUSE_EXCEPTION_CODE_SHIFT) | if self.cop0.exception_branch_delay {
                COP0_CAUSE_BRANCH_DELAY
            } else {
                0
            },
        )
    }

    pub fn cop0_epc(&self) -> (r: u32)
        ensures
            r == self@.cop0.epc,
    {
        self.cop0.epc
    }

    pub fn cop0_bad_vaddr(&self) -> (r: u32)
        ensures
            r == self@.cop0.bad_vaddr,
    {
        self.cop0.bad_vaddr
    }

    pub fn cop0_index(&self) -> (r: Option<u32>)
        ensures
            r == self@.cop0.index,
    {
        self.cop0.index
    }

    pub fn cop0_random(&self) -> (r: u8)
        ensures
            r == self@.cop0.random,
    {
        self.cop0.random
    }

    pub fn cop0_entry_lo0(&self) -> (r: Option<u32>)
        ensures
            r == self@.cop0.entry_lo0,
    {
        self.cop0.entry_lo0
    }

    pub fn cop0_entry_lo1(&self) -> (r: Option<u32>)
        ensures
            r == self@.cop0.entry_lo1,
    {
        self.cop0.entry_lo1
    }

    pub fn cop0_context(&self) -> (r: Option<u32>)
        ensures
            r == self@.cop0.context,
    {
        self.cop0.context
    }

    pub fn cop0_page_mask(&self) -> (r: Option<u32>)
        ensures
            r == self@.cop0.page_mask,
    {
        self.cop0.page_mask
    }

    pub fn cop0_wired(&self) -> (r: u8)
        ensures
            r == self@.cop0.wired,
    {
        self.cop0.wired
    }

    pub fn cop0_entry_hi(&self) -> (r: u32)
        ensures
            r == self@.cop0.entry_hi,
    {
        self.cop0.entry_hi
    }

    pub fn cop0_tlb_entry(&self, index: usize) -> (r: Option<MachineCop0TlbEntry>)
        ensures
            r == (if index < 32 {
                self@.cop0.tlb_entries@[index as int]
            } else {
                None
            }),
    {
        self.cop0.tlb_entry(index)
    }

    pub fn cop0_exception_code(&self) -> (r: u8)
        ensures
            r == self@.cop0.exception_code,
    {
        self.cop0.exception_code
    }

    pub fn cop0_exception_branch_delay(&self) -> (r: bool)
        ensures
            r == self@.cop0.exception_branch_delay,
    {
        self.cop0.exception_branch_delay
    }

    pub fn cop0_tag_lo(&self) -> (r: Option<MachineCop0TagState>)
        ensures
            r == self@.cop0.tag_lo,
    {
        self.cop0.tag_lo
    }

    pub fn cop0_tag_hi(&self) -> (r: Option<MachineCop0TagState>)
        ensures
            r == self@.cop0.tag_hi,
    {
        self.cop0.tag_hi
    }

    pub fn stage_cop0_status_for_bootstrap(&mut self, status: u32)
        ensures
            final(self)@ == (CpuState { cop0: Cop0 { status, ..old(self)@.cop0 }, ..old(self)@ }),
    {
        self.cop0.status = status;
    }

    pub fn stage_public_synthetic_cold_x105_page_mask(&mut self)
        ensures
            final(self)@ == (CpuState {
                cop0: Cop0 { page_mask: Some(0), ..old(self)@.cop0 },
                ..old(self)@
            }),
    {
        self.cop0.page_mask = Some(0);
    }

    /// Stages the Status and PageMask words of a firmware-free cartridge-entry handoff.
    pub fn stage_clean_room_cartridge_entry_cop0(&mut self, status: u32, page_mask: u32)
        ensures
            final(self)@ == (CpuState {
                cop0: Cop0 { status, page_mask: Some(page_mask), ..old(self)@.cop0 },
                ..old(self)@
            }),
    {
        self.cop0.status = status;
        self.cop0.page_mask = Some(page_mask);
    }

    /// One committed step: Count advances (latching the timer at Compare) and Random
    /// counts down.
    pub fn advance_count_for_committed_step(&mut self)
        ensures
            final(self)@ == (CpuState {
                cop0: spec_advance_random(spec_advance_count(old(self)@.cop0)),
                ..old(self)@
            }),
    {
        self.cop0.advance_count_for_committed_step();
        self.cop0.advance_random_for_committed_instruction();
    }

    pub fn write_cop0_cause_software_interrupt_pending(&mut self, value: u32)
        ensures
            final(self)@ == (CpuState {
                cop0: Cop0 {
                    software_interrupt_pending: value & COP0_CAUSE_SOFTWARE_INTERRUPT_PENDING_MASK,
                    software_interrupt_pending_known: true,
                    ..old(self)@.cop0
                },
                ..old(self)@
            }),
    {
        self.cop0.write_cause_software_interrupt_pending(value);
    }

    pub fn set_cop0_rcp_interrupt_pending(&mut self, pending: bool)
        ensures
            final(self)@ == (CpuState {
                cop0: Cop0 { rcp_interrupt_pending: pending, ..old(self)@.cop0 },
                ..old(self)@
            }),
    {
        self.cop0.rcp_interrupt_pending = pending;
    }

    pub fn cop0_interrupt_should_enter(&self) -> (r: bool)
        ensures
            r == spec_interrupt_should_enter(self@.cop0),
    {
        let status = self.cop0.status;
        (status & COP0_STATUS_INTERRUPT_ENABLE) != 0 && (status & (COP0_STATUS_EXL
            | COP0_STATUS_ERL)) == 0 && (status & COP0_STATUS_INTERRUPT_MASK
            & self.cop0.pending_interrupt_word()) != 0
    }

    pub fn write_cop0_status(&mut self, value: u32)
        ensures
            final(self)@ == (CpuState {
                cop0: Cop0 { status: value, ..old(self)@.cop0 },
                ..old(self)@
            }),
    {
        self.cop0.status = value;
    }

    pub fn write_cop0_count(&mut self, value: u32)
        ensures
            final(self)@ == (CpuState { cop0: Cop0 { count: value, ..old(self)@.cop0 }, ..old(self)@ }),
    {
        self.cop0.count = value;
    }

    pub fn write_cop0_compare(&mut self, value: u32)
        ensures
            final(self)@ == (CpuState {
                cop0: Cop0 { compare: value, timer_interrupt_pending: false, ..old(self)@.cop0 },
                ..old(self)@
            }),
    {
        self.cop0.write_compare(value);
    }

    pub fn write_cop0_epc(&mut self, value: u32)
        ensures
            final(self)@ == (CpuState { cop0: Cop0 { epc: value, ..old(self)@.cop0 }, ..old(self)@ }),
    {
        self.cop0.epc = value;
    }

    pub fn write_cop0_index(&mut self, value: u32)
        ensures
            final(self)@ == (CpuState {
                cop0: Cop0 { index: Some(value & COP0_INDEX_DEFINED_32_BIT_MASK), ..old(self)@.cop0 },
                ..old(self)@
            }),
    {
        self.cop0.index = Some(value & COP0_INDEX_DEFINED_32_BIT_MASK);
    }

    pub fn write_cop0_entry_lo0(&mut self, value: u32)
        ensures
            final(self)@ == (CpuState {
                cop0: Cop0 {
                    entry_lo0: Some(value & COP0_ENTRY_LO_DEFINED_32_BIT_MASK),
                    ..old(self)@.cop0
                },
                ..old(self)@
            }),
    {
        self.cop0.entry_lo0 = Some(value & COP0_ENTRY_LO_DEFINED_32_BIT_MASK);
    }

    pub fn write_cop0_entry_lo1(&mut self, value: u32)
        ensures
            final(self)@ == (CpuState {
                cop0: Cop0 {
                    entry_lo1: Some(value & COP0_ENTRY_LO_DEFINED_32_BIT_MASK),
                    ..old(self)@.cop0
                },
                ..old(self)@
            }),
    {
        self.cop0.entry_lo1 = Some(value & COP0_ENTRY_LO_DEFINED_32_BIT_MASK);
    }

    /// Writes the PTEBase field of Context; BadVPN2 keeps what exceptions put there.
    pub fn write_cop0_context(&mut self, value: u32)
        ensures
            final(self)@ == (CpuState {
                cop0: Cop0 {
                    context: Some(
                        (value & COP0_CONTEXT_PTE_BASE_MASK) | (match old(self)@.cop0.context {
                            Some(c) => c,
                            None => 0,
                        } & COP0_CONTEXT_BAD_VPN2_MASK),
                    ),
                    ..old(self)@.cop0
                },
                ..old(self)@
            }),
    {
        self.cop0.write_context(value);
    }

    pub fn write_cop0_page_mask(&mut self, value: u32)
        ensures
            final(self)@ == (CpuState {
                cop0: Cop0 {
                    page_mask: Some(value & COP0_PAGE_MASK_DEFINED_32_BIT_MASK),
                    ..old(self)@.cop0
                },
                ..old(self)@
            }),
    {
        self.cop0.page_mask = Some(value & COP0_PAGE_MASK_DEFINED_32_BIT_MASK);
    }

    /// Writes Wired (6 bits) and resets Random to the top slot.
    pub fn write_cop0_wired(&mut self, value: u32)
        ensures
            final(self)@ == (CpuState {
                cop0: Cop0 { wired: (value & 0x3f) as u8, random: 31, ..old(self)@.cop0 },
                ..old(self)@
            }),
    {
        self.cop0.write_wired(value);
    }

    pub fn write_cop0_entry_hi(&mut self, value: u32)
        ensures
            final(self)@ == (CpuState {
                cop0: Cop0 { entry_hi: value & COP0_ENTRY_HI_DEFINED_32_BIT_MASK, ..old(self)@.cop0 },
                ..old(self)@
            }),
    {
        self.cop0.entry_hi = value & COP0_ENTRY_HI_DEFINED_32_BIT_MASK;
    }

    pub fn write_cop0_tag_lo(&mut self, value: u32, provenance: MachineCop0TagWriteProvenance)
        ensures
            final(self)@ == (CpuState {
                cop0: Cop0 {
                    tag_lo: Some(MachineCop0TagState { raw_word: value, provenance }),
                    ..old(self)@.cop0
                },
                ..old(self)@
            }),
    {
        self.cop0.tag_lo = Some(MachineCop0TagState::new(value, provenance));
    }

    pub fn write_cop0_tag_hi(&mut self, value: u32, provenance: MachineCop0TagWriteProvenance)
        ensures
            final(self)@ == (CpuState {
                cop0: Cop0 {
                    tag_hi: Some(MachineCop0TagState { raw_word: value, provenance }),
                    ..old(self)@.cop0
                },
                ..old(self)@
            }),
    {
        self.cop0.tag_hi = Some(MachineCop0TagState::new(value, provenance));
    }

    /// Sets Count, Compare and the latched timer interrupt together.
    pub fn stage_cop0_count_compare_timer(
        &mut self,
        count: u32,
        compare: u32,
        timer_interrupt_pending: bool,
    )
        ensures
            final(self)@ == (CpuState {
                cop0: Cop0 { count, compare, timer_interrupt_pending, ..old(self)@.cop0 },
                ..old(self)@
            }),
    {
        self.cop0.count = count;
        self.cop0.compare = compare;
        self.cop0.timer_interrupt_pending = timer_interrupt_pending;
    }

    pub fn stage_cop0_bad_vaddr(&mut self, bad_vaddr: u32)
        ensures
            final(self)@ == (CpuState { cop0: Cop0 { bad_vaddr, ..old(self)@.cop0 }, ..old(self)@ }),
    {
        self.cop0.bad_vaddr = bad_vaddr;
    }

    /// Sets the Cause fields that exceptions and software interrupts own.
    pub fn stage_cop0_cause_state(
        &mut self,
        software_interrupt_pending: u32,
        software_interrupt_pending_known: bool,
        exception_code: u8,
        exception_branch_delay: bool,
    )
        ensures
            final(self)@ == (CpuState {
                cop0: Cop0 {
                    software_interrupt_pending: software_interrupt_pending
                        & COP0_CAUSE_SOFTWARE_INTERRUPT_PENDING_MASK,
                    software_interrupt_pending_known,
                    exception_code,
                    exception_branch_delay,
                    ..old(self)@.cop0
                },
                ..old(self)@
            }),
    {
        self.cop0.software_interrupt_pending = software_interrupt_pending
            & COP0_CAUSE_SOFTWARE_INTERRUPT_PENDING_MASK;
        self.cop0.software_interrupt_pending_known = software_interrupt_pending_known;
        self.cop0.exception_code = exception_code;
        self.cop0.exception_branch_delay = exception_branch_delay;
    }

    pub fn execute_cop0_tlb_read(&mut self) -> (r: Result<u8, MachineCop0TlbOperationError>)
        ensures
            spec_tlb_read_post(old(self)@, final(self)@, r),
    {
        self.cop0.read_tlb_indexed()
    }

    pub fn execute_cop0_tlb_write_indexed(&mut self) -> (r: Result<u8, MachineCop0TlbOperationError>)
        ensures
            spec_tlb_write_indexed_post(old(self)@, final(self)@, r),
    {
        self.cop0.write_tlb_indexed()
    }

    pub fn execute_cop0_tlb_write_random(&mut self) -> (r: Result<u8, MachineCop0TlbOperationError>)
        requires
            old(self)@.cop0.random < 32,
        ensures
            spec_tlb_write_random_post(old(self)@, final(self)@, r),
    {
        self.cop0.write_tlb_random()
    }

    pub fn execute_cop0_tlb_probe(&mut self) -> (r: Option<u8>)
        ensures
            spec_tlb_probe_post(old(self)@, final(self)@, r),
    {
        self.cop0.probe_tlb()
    }

    /// ERET: clears EXL and resumes at EPC; refused while ERL is set.
    pub fn execute_cop0_exception_return(&mut self) -> (r: Result<(), CpuCop0ExceptionReturnError>)
        ensures
            spec_exception_return_post(old(self)@, final(self)@, r),
    {
        let status = self.cop0.status;
        if (status & COP0_STATUS_ERL) != 0 {
            return Err(CpuCop0ExceptionReturnError::ErrorEpcUnavailable { status });
        }
        self.cop0.status = status & !COP0_STATUS_EXL;
        let epc = self.cop0.epc;
        self.stage_pc(epc);
        Ok(())
    }

    fn local_synchronous_exception_lineage(&self) -> (r: Option<(u32, bool)>)
        ensures
            r == spec_synchronous_exception_lineage(self@),
    {
        if (self.cop0.status & COP0_STATUS_EXL) != 0 {
            return None;
        }
        match self.delay_slot_context {
            Some(context) => Some((context.branch_or_jump_pc(), true)),
            None => if self.next_pc == self.pc.wrapping_add(4) {
                Some((self.pc, false))
            } else {
                None
            },
        }
    }

    fn enter_local_exception(&mut self, lineage: (u32, bool), code: u8, bad_vaddr: Option<u32>)
        ensures
            final(self)@ == spec_exception_entry(old(self)@, lineage, code, bad_vaddr),
    {
        self.cop0.epc = lineage.0;
        match bad_vaddr {
            Some(v) => {
                self.cop0.bad_vaddr = v;
            },
            None => {},
        }
        self.cop0.exception_code = code;
        self.cop0.exception_branch_delay = lineage.1;
        self.cop0.status = self.cop0.status | COP0_STATUS_EXL;
        self.pc = LOCAL_EXCEPTION_VECTOR_PC;
        self.next_pc = LOCAL_EXCEPTION_VECTOR_NEXT_PC;
        self.delay_slot_context = None;
    }

    /// Enters the address-error exception (AdEL/AdES) for a data access.
    pub fn enter_data_address_error_exception(&mut self, address_error: CpuDataAddressError) -> (r:
        Result<(), CpuAddressErrorExceptionEntryError>)
        ensures
            match spec_synchronous_exception_lineage(old(self)@) {
                None => r == Err::<(), CpuAddressErrorExceptionEntryError>(
                    CpuAddressErrorExceptionEntryError {
                        pc: CpuAddress(old(self)@.pc),
                        next_pc: CpuAddress(old(self)@.next_pc),
                        status: old(self)@.cop0.status,
                    },
                ) && final(self)@ == old(self)@,
                Some(lineage) => r is Ok && final(self)@ == spec_exception_entry(
                    old(self)@,
                    lineage,
                    address_error.exception_kind.spec_cause_exception_code(),
                    Some(address_error.address@),
                ),
            },
    {
        let lineage = match self.local_synchronous_exception_lineage() {
            Some(l) => l,
            None => {
                return Err(
                    CpuAddressErrorExceptionEntryError::new(
                        CpuAddress::new(self.pc),
                        CpuAddress::new(self.next_pc),
                        self.cop0.status,
                    ),
                );
            },
        };
        let bad_vaddr = address_error.bad_vaddr().value();
        let code = address_error.cause_exception_code();
        self.enter_local_exception(lineage, code, Some(bad_vaddr));
        Ok(())
    }

    /// Enters the AdEL exception for an instruction fetch from `bad_vaddr`.
    pub fn enter_instruction_fetch_address_error_exception(&mut self, bad_vaddr: CpuAddress) -> (r:
        Result<(), CpuAddressErrorExceptionEntryError>)
        ensures
            match spec_synchronous_exception_lineage(old(self)@) {
                None => r == Err::<(), CpuAddressErrorExceptionEntryError>(
                    CpuAddressErrorExceptionEntryError {
                        pc: CpuAddress(old(self)@.pc),
                        next_pc: CpuAddress(old(self)@.next_pc),
                        status: old(self)@.cop0.status,
                    },
                ) && final(self)@ == old(self)@,
                Some(lineage) => r is Ok && final(self)@ == spec_exception_entry(
                    old(self)@,
                    lineage,
                    CpuAddressErrorKind::AddressErrorLoad.spec_cause_exception_code(),
                    Some(bad_vaddr@),
                ),
            },
    {
        let lineage = match self.local_synchronous_exception_lineage() {
            Some(l) => l,
            None => {
                return Err(
                    CpuAddressErrorExceptionEntryError::new(
                        CpuAddress::new(self.pc),
                        CpuAddress::new(self.next_pc),
                        self.cop0.status,
                    ),
                );
            },
        };
        let code = CpuAddressErrorKind::AddressErrorLoad.cause_exception_code();
        self.enter_local_exception(lineage, code, Some(bad_vaddr.value()));
        Ok(())
    }

    /// Enters the integer-overflow exception (Ov).
    pub fn enter_arithmetic_overflow_exception(&mut self) -> (r: Result<
        (),
        CpuArithmeticOverflowExceptionEntryError,
    >)
        ensures
            match spec_synchronous_exception_lineage(old(self)@) {
                None => r == Err::<(), CpuArithmeticOverflowExceptionEntryError>(
                    CpuArithmeticOverflowExceptionEntryError {
                        pc: CpuAddress(old(self)@.pc),
                        next_pc: CpuAddress(old(self)@.next_pc),
                        status: old(self)@.cop0.status,
                    },
                ) && final(self)@ == old(self)@,
                Some(lineage) => r is Ok && final(self)@ == spec_exception_entry(
                    old(self)@,
                    lineage,
                    COP0_EXCEPTION_CODE_SIGNED_OVERFLOW,
                    None,
                ),
            },
    {
        let lineage = match self.local_synchronous_exception_lineage() {
            Some(l) => l,
            None => {
                return Err(
                    CpuArithmeticOverflowExceptionEntryError::new(
                        CpuAddress::new(self.pc),
                        CpuAddress::new(self.next_pc),
                        self.cop0.status,
                    ),
                );
            },
        };
        self.enter_local_exception(lineage, COP0_EXCEPTION_CODE_SIGNED_OVERFLOW, None);
        Ok(())
    }

    /// Enters the interrupt exception at the current instruction boundary: EPC is the
    /// branch that owns a delay slot in progress, else PC.
    pub fn enter_interrupt_exception(&mut self)
        requires
            spec_interrupt_should_enter(old(self)@.cop0),
        ensures
            final(self)@ == spec_exception_entry(
                old(self)@,
                match old(self)@.delay_slot_context {
                    Some(context) => (context.branch_or_jump_pc, true),
                    None => (old(self)@.pc, false),
                },
                0,
                None,
            ),
    {
        let lineage = match self.delay_slot_context {
            Some(context) => (context.branch_or_jump_pc(), true),
            None => (self.pc, false),
        };
        self.enter_local_exception(lineage, 0, None);
    }
}

proof fn lemma_status_bits(st: u32)
    by (bit_vector)
    ensures
        (st | 2u32) & 2u32 != 0,
        st & (2u32 | 4u32) == 0 ==> (st | 2u32) & 4u32 == 0,
        st & (2u32 | 4u32) == 0 ==> (st | 2u32) & !2u32 == st,
{
}

/// A blocked exception entry changes nothing, and a taken one always leaves EXL set: a
/// second synchronous exception entry right after a first one is refused.
pub proof fn lemma_exception_entry_blocks_nested_entry(
    s: CpuState,
    lineage: (u32, bool),
    code: u8,
    bad_vaddr: Option<u32>,
)
    ensures
        spec_exception_entry(s, lineage, code, bad_vaddr).cop0.status & COP0_STATUS_EXL != 0,
        spec_synchronous_exception_lineage(spec_exception_entry(s, lineage, code, bad_vaddr))
            is None,
{
    lemma_status_bits(s.cop0.status);
}

/// ERET after an exception entry resumes at the recorded EPC with EXL cleared again when
/// EXL was clear before the entry.
pub proof fn lemma_exception_return_resumes_at_epc(
    s: CpuState,
    lineage: (u32, bool),
    code: u8,
    bad_vaddr: Option<u32>,
)
    requires
        s.cop0.status & (COP0_STATUS_EXL | COP0_STATUS_ERL) == 0,
    ensures
        ({
            let entered = spec_exception_entry(s, lineage, code, bad_vaddr);
            &&& entered.cop0.status & COP0_STATUS_ERL == 0
            &&& entered.cop0.epc == lineage.0
            &&& entered.cop0.status & !COP0_STATUS_EXL == s.cop0.status
        }),
{
    lemma_status_bits(s.cop0.status);
}

/// A TLB entry translates an EntryHi of another address space only when it is global:
/// an entry whose G bit is clear in either half never matches an EntryHi whose low eight
/// ASID bits differ from its own. With the ASIDs agreeing (or the entry global), an
/// EntryHi with the same virtual page pair number (bits 31..13) always matches, and with a
/// 4 KiB page mask only such an EntryHi matches.
pub proof fn lemma_tlb_match_respects_address_space(e: MachineCop0TlbEntry, entry_hi: u32)
    ensures
        !(e.entry_lo0 % 2 == 1 && e.entry_lo1 % 2 == 1) && e.entry_hi % 256 != entry_hi % 256
            ==> !e.spec_matches(entry_hi),
        (e.entry_lo0 % 2 == 1 && e.entry_lo1 % 2 == 1 || e.entry_hi % 256 == entry_hi % 256)
            && e.entry_hi / 0x2000 == entry_hi / 0x2000 ==> e.spec_matches(entry_hi),
        e.page_mask == 0 && e.spec_matches(entry_hi) ==> e.entry_hi / 0x2000 == entry_hi / 0x2000,
{
    let a = e.entry_hi;
    let b = entry_hi;
    let pm = e.page_mask;
    let l0 = e.entry_lo0;
    let l1 = e.entry_lo1;
    assert(((l0 & 1 != 0) == (l0 % 2 == 1)) && ((l1 & 1 != 0) == (l1 % 2 == 1)) && (((a as u8)
        == (b as u8)) == (a % 256 == b % 256)) && (a / 0x2000 == b / 0x2000 ==> (a & !(pm
        | 0x1fff)) == (b & !(pm | 0x1fff))) && (pm == 0 && (a & !(pm | 0x1fff)) == (b & !(pm
        | 0x1fff)) ==> a / 0x2000 == b / 0x2000)) by (bit_vector);
}

/// A TLB probe never reports a slot of another address space: the slot it finds holds a
/// global entry or one whose ASID is EntryHi's.
pub proof fn lemma_tlb_probe_respects_address_space(old: CpuState, new: CpuState, i: u8)
    requires
        spec_tlb_probe_post(old, new, Some(i)),
    ensures
        old.cop0.tlb_entries@[i as int] matches Some(e) && ((e.entry_lo0 % 2 == 1 && e.entry_lo1
            % 2 == 1) || e.entry_hi % 256 == old.cop0.entry_hi % 256),
{
    let e = old.cop0.tlb_entries@[i as int]->Some_0;
    lemma_tlb_match_respects_address_space(e, old.cop0.entry_hi);
}

} // verus!
