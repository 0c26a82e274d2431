use super::{Cpu, CpuState};
use vstd::prelude::*;

verus! {

/// The branch or jump whose delay slot the CPU is executing.
#[derive(Debug, Clone, Copy, PartialEq, Eq, Structural)]
pub struct CpuDelaySlotContext {
    pub branch_or_jump_pc: u32,
}

impl CpuDelaySlotContext {
    pub fn new(branch_or_jump_pc: u32) -> (r: Self)
        ensures
            r.branch_or_jump_pc == branch_or_jump_pc,
    {
        Self { branch_or_jump_pc }
    }

    pub fn branch_or_jump_pc(self) -> (r: u32)
        ensures
            r == self.branch_or_jump_pc,
    {
        self.branch_or_jump_pc
    }
}

/// A saved PC pair.
#[derive(Debug, Clone, Copy, PartialEq, Eq, Structural)]
pub struct CpuControlFlowSnapshot {
    pub pc: u32,
    pub next_pc: u32,
}

impl CpuControlFlowSnapshot {
    pub fn pc(self) -> (r: u32)
        ensures
            r == self.pc,
    {
        self.pc
    }

    pub fn next_pc(self) -> (r: u32)
        ensures
            r == self.next_pc,
    {
        self.next_pc
    }
}

/// The address of the instruction after `address`, wrapping as 32-bit unsigned addition.
pub open spec fn spec_sequential_instruction_address(address: u32) -> u32 {
    ((address as int + 4) % 0x1_0000_0000) as u32
}

pub fn sequential_instruction_address(address: u32) -> (r: u32)
    ensures
        r == spec_sequential_instruction_address(address),
{
    address.wrapping_add(4)
}

impl Cpu {
    pub fn pc(&self) -> (r: u32)
        ensures
            r == self@.pc,
    {
        self.pc
    }

    pub fn next_pc(&self) -> (r: u32)
        ensures
            r == self@.next_pc,
    {
        self.next_pc
    }

    pub fn hi(&self) -> (r: u64)
        ensures
            r == self@.hi,
    {
        self.hi
    }

    pub fn lo(&self) -> (r: u64)
        ensures
            r == self@.lo,
    {
        self.lo
    }

    pub fn delay_slot_context(&self) -> (r: Option<CpuDelaySlotContext>)
        ensures
            r == self@.delay_slot_context,
    {
        self.delay_slot_context
    }

    /// Sets PC and stages the sequential next PC.
    pub fn stage_pc(&mut self, value: u32)
        ensures
            final(self)@ == (CpuState {
                pc: value,
                next_pc: spec_sequential_instruction_address(value),
                ..old(self)@
            }),
    {
        self.pc = value;
        self.next_pc = sequential_instruction_address(value);
    }

    pub fn stage_next_pc(&mut self, value: u32)
        ensures
            final(self)@ == (CpuState { next_pc: value, ..old(self)@ }),
    {
        self.next_pc = value;
    }

    pub fn stage_hi(&mut self, value: u64)
        ensures
            final(self)@ == (CpuState { hi: value, ..old(self)@ }),
    {
        self.hi = value;
    }

    pub fn stage_lo(&mut self, value: u64)
        ensures
            final(self)@ == (CpuState { lo: value, ..old(self)@ }),
    {
        self.lo = value;
    }

    /// Records that the CPU now executes the delay slot of the branch or jump at
    /// `branch_or_jump_pc`.
    pub fn stage_delay_slot_context(&mut self, branch_or_jump_pc: u32)
        ensures
            final(self)@ == (CpuState {
                delay_slot_context: Some(CpuDelaySlotContext { branch_or_jump_pc }),
                ..old(self)@
            }),
    {
        self.delay_slot_context = Some(CpuDelaySlotContext { branch_or_jump_pc });
    }

    pub fn clear_delay_slot_context(&mut self)
        ensures
            final(self)@ == (CpuState { delay_slot_context: None, ..old(self)@ }),
    {
        self.delay_slot_context = None;
    }

    /// Advances the staged next PC by one instruction, leaving PC alone.
    pub fn stage_next_sequential_pc_for_step(&mut self)
        ensures
            final(self)@ == (CpuState {
                next_pc: spec_sequential_instruction_address(old(self)@.next_pc),
                ..old(self)@
            }),
    {
        self.next_pc = sequential_instruction_address(self.next_pc);
    }

    pub fn capture_control_flow(&self) -> (r: CpuControlFlowSnapshot)
        ensures
            r == (CpuControlFlowSnapshot { pc: self@.pc, next_pc: self@.next_pc }),
    {
        CpuControlFlowSnapshot { pc: self.pc, next_pc: self.next_pc }
    }

    pub fn restore_control_flow(&mut self, snapshot: CpuControlFlowSnapshot)
        ensures
            final(self)@ == (CpuState {
                pc: snapshot.pc,
                next_pc: snapshot.next_pc,
                ..old(self)@
            }),
    {
        self.pc = snapshot.pc;
        self.next_pc = snapshot.next_pc;
    }

    /// Commits a step: PC becomes the next PC that was current when `snapshot` was taken.
    pub fn commit_staged_step_control_flow(&mut self, snapshot: CpuControlFlowSnapshot)
        ensures
            final(self)@ == (CpuState { pc: snapshot.next_pc, ..old(self)@ }),
    {
        self.pc = snapshot.next_pc;
    }
}

/// Restoring a captured snapshot gives back the PC pair it captured, whatever was staged
/// in between, and touches nothing else.
pub proof fn lemma_restore_undoes_capture(before: CpuState, between: CpuState)
    requires
        between == (CpuState { pc: between.pc, next_pc: between.next_pc, ..before }),
    ensures
        (CpuState {
            pc: (CpuControlFlowSnapshot { pc: before.pc, next_pc: before.next_pc }).pc,
            next_pc: (CpuControlFlowSnapshot { pc: before.pc, next_pc: before.next_pc }).next_pc,
            ..between
        }) == before,
{
}

/// A staged step (capture, advance the next PC, commit) moves PC to the old next PC and
/// the next PC one instruction beyond it.
pub proof fn lemma_staged_step_advances_pc_pair(s: CpuState)
    ensures
        ({
            let snapshot = CpuControlFlowSnapshot { pc: s.pc, next_pc: s.next_pc };
            let advanced = CpuState {
                next_pc: spec_sequential_instruction_address(s.next_pc),
                ..s
            };
            let committed = CpuState { pc: snapshot.next_pc, ..advanced };
            &&& committed.pc == s.next_pc
            &&& committed.next_pc == spec_sequential_instruction_address(s.next_pc)
            &&& committed == (CpuState {
                pc: s.next_pc,
                next_pc: spec_sequential_instruction_address(s.next_pc),
                ..s
            })
        }),
{
}

} // verus!
