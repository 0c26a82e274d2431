use vstd::prelude::*;

pub mod cartridge_bootstrap;
pub mod clean_room_hle;
pub mod rdram_reservation;

verus! {

/// Where a load word was served from, as load provenance records it.
#[derive(Debug, Clone, Copy, PartialEq, Eq, Structural)]
pub enum MachineLoadWordTarget {
    SpImem { offset: u32 },
    RdramAbsentModuleMemory { physical_address: u32 },
}

} // verus!
