//! Verified core of a headless Nintendo 64 machine model.
pub mod ai;
pub mod bytes;
pub mod cartridge;
pub mod cpu;
pub mod dpc;
pub mod machine;
pub mod mi;
pub mod pi;
pub mod pif;
pub mod rdram;
mod text;

pub use cpu::address::{
    check_cpu_data_alignment, classify_direct_rdram_address, select_cpu_data_address_error,
    select_cpu_data_address_error_for_access, translate_direct_cpu_physical_address,
    CpuAddress, CpuAddressErrorExceptionEntryError, CpuAddressErrorKind, CpuAddressTarget,
    CpuDataAccessKind, CpuDataAddressError, CpuDataAlignmentError, CpuDataWidth, RdramOffset,
};
pub use rdram::RDRAM_SIZE_BYTES;
