use super::{Cpu, CpuState};
use crate::text::{push_decimal, push_str, spec_decimal};
use vstd::prelude::*;

verus! {

/// A general-purpose register index outside `0..32`.
#[derive(Debug, Clone, Copy, PartialEq, Eq, Structural)]
pub struct CpuRegisterIndexError {
    pub index: usize,
}

impl CpuRegisterIndexError {
    /// The error message, as a sequence of characters.
    pub open spec fn spec_message(self) -> Seq<char> {
        "CPU GPR index out of range: "@ + spec_decimal(self.index as nat)
    }

    /// The error message.
    pub fn to_string(&self) -> (r: String)
        ensures
            r@ == self.spec_message(),
    {
        let mut s = String::new();
        push_str(&mut s, "CPU GPR index out of range: ");
        push_decimal(&mut s, self.index as u64);
        s
    }

    pub fn index(&self) -> (r: usize)
        ensures
            r == self.index,
    {
        self.index
    }
}

impl Cpu {
    /// Reads general-purpose register `index`; register 0 reads as zero.
    pub fn gpr(&self, index: usize) -> (r: Option<u64>)
        ensures
            r == (if index < 32 {
                Some(self@.gpr(index as int))
            } else {
                None
            }),
    {
        if index >= 32 {
            return None;
        }
        if index == 0 {
            return Some(0);
        }
        Some(self.gprs[index])
    }

    /// Writes general-purpose register `index`; a write to register 0 changes nothing.
    pub fn set_gpr(&mut self, index: usize, value: u64) -> (r: Result<(), CpuRegisterIndexError>)
        ensures
            index >= 32 ==> r == Err::<(), CpuRegisterIndexError>(CpuRegisterIndexError { index })
                && final(self)@ == old(self)@,
            index == 0 ==> r is Ok && final(self)@ == old(self)@,
            0 < index < 32 ==> r is Ok && final(self)@ == (CpuState {
                gprs: old(self)@.gprs.update(index as int, value),
                ..old(self)@
            }),
    {
        if index >= 32 {
            return Err(CpuRegisterIndexError { index });
        }
        if index == 0 {
            return Ok(());
        }
        self.gprs[index] = value;
        Ok(())
    }
}

/// What a register read gives after a successful write: the written value at the written
/// index (zero at index 0), and the earlier value at every other index.
pub proof fn lemma_gpr_read_after_write(before: CpuState, index: int, value: u64, other: int)
    requires
        before.gprs.len() == 32,
        0 <= index < 32,
        0 <= other < 32,
        other != index,
    ensures
        ({
            let after = if index == 0 {
                before
            } else {
                CpuState { gprs: before.gprs.update(index, value), ..before }
            };
            &&& after.gpr(index) == (if index == 0 {
                0
            } else {
                value
            })
            &&& after.gpr(other) == before.gpr(other)
        }),
{
}

} // verus!
