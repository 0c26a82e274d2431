#![allow(unused_imports)]
use fn64_core::ai::{AI_BIT_RATE_MASK, AI_BIT_RATE_PHYSICAL_ADDRESS, AI_CONTROL_DMA_ENABLE_MASK, AI_CONTROL_PHYSICAL_ADDRESS, AI_DAC_RATE_MASK, AI_DAC_RATE_PHYSICAL_ADDRESS, AI_STATUS_PHYSICAL_ADDRESS, Ai, MachineAiBitRateState, MachineAiControlState, MachineAiCpuStoreProvenance, MachineAiDacRateState};
use fn64_core::bytes::{patch_be_u16, patch_be_u32, patch_be_u64, read_be_u16, read_be_u32, read_be_u64};
use fn64_core::cartridge::{CARTRIDGE_CANDIDATE_IPL3_BYTE_COUNT, CARTRIDGE_CANDIDATE_IPL3_END_OFFSET_EXCLUSIVE, CARTRIDGE_CANDIDATE_IPL3_START_OFFSET, CARTRIDGE_HEADER_ENTRY_WORD_OFFSET, Cartridge, CartridgeEntryInspection, CartridgeLoadError, CartridgeReadError, NormalizedRomImage, inspect_cartridge_entry, load_cartridge, normalize_rom_image};
use fn64_core::cartridge::byte_order::{RomSourceLayout, detect_rom_source_layout, normalize_rom_bytes, rom_source_layout_name};
use fn64_core::cartridge::metadata::{CartridgePiDomain1Timing, EXPECTED_HEADER_MAGIC, ROM_HEADER_SIZE, RomMetadata, parse_rom_metadata, read_ascii_field};
use fn64_core::cpu::{CPU_GPR_COUNT, Cpu, NON_BOOT_RESET_VECTOR_NEXT_PC, NON_BOOT_RESET_VECTOR_PC};
use fn64_core::cpu::address::{CpuAddress, CpuAddressErrorExceptionEntryError, CpuAddressErrorKind, CpuAddressTarget, CpuDataAccessKind, CpuDataAddressError, CpuDataAlignmentError, CpuDataWidth, DIRECT_SEGMENT_MASK, DIRECT_SEGMENT_OFFSET_MASK, KSEG0_RDRAM_BASE, KSEG1_RDRAM_BASE, RdramOffset, check_cpu_data_alignment, classify_direct_rdram_address, select_cpu_data_address_error, select_cpu_data_address_error_for_access, translate_direct_cpu_physical_address};
use fn64_core::cpu::cache::{MachineCop0TagState, MachineCop0TagWriteProvenance, MachinePrimaryCacheHitInvalidatePlan, MachinePrimaryCacheHitInvalidateProvenance, MachinePrimaryCacheHitInvalidateTarget, MachinePrimaryCacheIndexInvalidatePlan, MachinePrimaryCacheIndexInvalidateProvenance, MachinePrimaryCacheIndexStoreTagTarget, MachinePrimaryCacheOperationProvenance, MachinePrimaryCaches, MachinePrimaryDataCacheAccessError, MachinePrimaryDataCacheFillPlan, MachinePrimaryDataCacheFillProvenance, MachinePrimaryDataCacheHitWritebackPlan, MachinePrimaryDataCacheHitWritebackProvenance, MachinePrimaryDataCacheIndexWritebackInvalidatePlan, MachinePrimaryDataCacheLineState, MachinePrimaryDataCacheStorePlan, MachinePrimaryDataCacheStoreProvenance, MachinePrimaryDataCacheStoreWidth, MachinePrimaryDataCacheWritebackPlan, MachinePrimaryInstructionCacheFillPlan, MachinePrimaryInstructionCacheFillProvenance, MachinePrimaryInstructionCacheLineState, PRIMARY_CACHE_TAG_LO_PHYSICAL_TAG_MASK, PRIMARY_CACHE_TAG_LO_STATE_MASK, PRIMARY_CACHE_TAG_LO_STATE_SHIFT, PRIMARY_DATA_CACHE_LINE_COUNT, PRIMARY_DATA_CACHE_LINE_SIZE_BYTES, PRIMARY_DATA_CACHE_SIZE_BYTES, PRIMARY_INSTRUCTION_CACHE_LINE_COUNT, PRIMARY_INSTRUCTION_CACHE_LINE_SIZE_BYTES, PRIMARY_INSTRUCTION_CACHE_SIZE_BYTES, primary_data_cache_line_index, primary_instruction_cache_line_index};
use fn64_core::cpu::cop0::{COP0_CAUSE_BRANCH_DELAY, COP0_CAUSE_EXCEPTION_CODE_SHIFT, COP0_CAUSE_RCP_INTERRUPT_PENDING, COP0_CAUSE_SOFTWARE_INTERRUPT_PENDING_MASK, COP0_CAUSE_TIMER_INTERRUPT_PENDING, COP0_CONTEXT_BAD_VPN2_MASK, COP0_CONTEXT_PTE_BASE_MASK, COP0_ENTRY_HI_DEFINED_32_BIT_MASK, COP0_ENTRY_LO_DEFINED_32_BIT_MASK, COP0_EXCEPTION_CODE_SIGNED_OVERFLOW, COP0_INDEX_DEFINED_32_BIT_MASK, COP0_PAGE_MASK_DEFINED_32_BIT_MASK, COP0_STATUS_ERL, COP0_STATUS_EXL, COP0_STATUS_INTERRUPT_ENABLE, COP0_STATUS_INTERRUPT_MASK, COP0_TLB_ENTRY_COUNT, Cop0, CpuArithmeticOverflowExceptionEntryError, CpuCop0ExceptionReturnError, LOCAL_EXCEPTION_VECTOR_NEXT_PC, LOCAL_EXCEPTION_VECTOR_PC, MachineCop0TlbEntry, MachineCop0TlbOperationError};
use fn64_core::cpu::cop1::{COP0_STATUS_FR, COP1_FCR31_CAUSE_MASK, COP1_FCR31_DEFINED_FIELDS_MASK, COP1_FCR31_INEXACT_CAUSE, COP1_FCR31_INEXACT_ENABLE, COP1_FCR31_INEXACT_FLAG, COP1_FCR31_ROUNDING_MODE_MASK, COP1_FGR_COUNT, Cop1, CvtSingleWordResult, MachineCop1CvtSingleWordFcr31Provenance, MachineCop1CvtSingleWordProvenance, MachineCop1DataWordAvailability, MachineCop1DataWordSource, MachineCop1DataWordSourceKind, MachineCop1DataWordState, MachineCop1DataWordSummary, MachineCop1Fcr31Source, MachineCop1Fcr31State, MachineCop1Fcr31WriteProvenance, MachineCop1FrMode, MachineCop1Ldc1Provenance, MachineCop1Ldc1WordRole, MachineCop1Lwc1Provenance, MachineCop1Mtc1Provenance, MachineCop1RoundingMode, convert_signed_word_to_binary32};
use fn64_core::cpu::execution::{CpuImmediateBitwiseLogicalExecutedInstruction, CpuImmediateBitwiseLogicalExecutionError, CpuImmediateComparisonExecutedInstruction, CpuImmediateComparisonExecutionError, CpuImmediateNonTrappingIntegerExecutedInstruction, CpuImmediateNonTrappingIntegerExecutionError, CpuImmediateTrappingIntegerExecutedInstruction, CpuImmediateTrappingIntegerExecutionError, CpuImmediateTrappingIntegerExecutionOutcome, CpuImmediateTrappingIntegerOverflow, CpuLocalExecutedHelperArithmeticOverflow, CpuLocalExecutedHelperExecutedInstruction, CpuLocalExecutedHelperFamily, CpuLocalExecutedHelperInvocationError, CpuLocalExecutedHelperInvocationOutcome, CpuLocalExecutedHelperSelection, CpuSpecialBitwiseLogicalExecutedInstruction, CpuSpecialBitwiseLogicalExecutionError, CpuSpecialHiLoTransferExecutedInstruction, CpuSpecialHiLoTransferExecutionError, CpuSpecialNonTrappingIntegerExecutedInstruction, CpuSpecialNonTrappingIntegerExecutionError, CpuSpecialShiftExecutedInstruction, CpuSpecialShiftExecutionError, CpuSpecialTrappingIntegerExecutedInstruction, CpuSpecialTrappingIntegerExecutionError, CpuSpecialTrappingIntegerExecutionOutcome, CpuSpecialTrappingIntegerOverflow, CpuUpperImmediateExecutedInstruction, CpuUpperImmediateExecutionError, arithmetic_shift_right_cpu_value, arithmetic_shift_right_u32, cpu_value_from_bool, select_cpu_local_executed_helper, sign_extend_u16_to_cpu_value, sign_extend_u16_to_u32, sign_extend_u32_to_cpu_value, signed_cpu_add_overflows, signed_cpu_sub_overflows, signed_cpu_value_less_than, signed_halfword_value, signed_i32_result_out_of_range, signed_word_value, u32_bits_from_i32_value, variable_shift_amount_cpu_value, variable_shift_amount_u32};
use fn64_core::cpu::instruction::{CpuInstructionFields, CpuInstructionIdentity, CpuInstructionWord, decode_cpu_instruction_word, identify_cpu_instruction};
use fn64_core::cpu::registers::{CpuRegisterIndexError};
use fn64_core::cpu::scalars::{CpuControlFlowSnapshot, CpuDelaySlotContext, sequential_instruction_address};
use fn64_core::machine::{MachineLoadWordTarget};
use fn64_core::machine::cartridge_bootstrap::{BootstrapGprAccess, ColdX105CoupledHandoffPlan, MACHINE_CARTRIDGE_BOOTSTRAP_EXECUTION_PC, MACHINE_CARTRIDGE_BOOTSTRAP_NEXT_PC, MACHINE_CARTRIDGE_BOOTSTRAP_SP_DMEM_END_OFFSET_EXCLUSIVE, MACHINE_CARTRIDGE_BOOTSTRAP_SP_DMEM_START_OFFSET, MACHINE_PIF_IPL1_STATUS, MACHINE_PIF_IPL2_HANDOFF_NTSC_LINK_INSTRUCTION_ADDRESS, MACHINE_PIF_IPL2_HANDOFF_NTSC_RA_VALUE, MACHINE_PIF_IPL2_HANDOFF_RA_GPR_INDEX, MACHINE_PIF_IPL2_HANDOFF_S3_GPR_INDEX, MACHINE_PIF_IPL2_HANDOFF_S4_GPR_INDEX, MACHINE_PIF_IPL2_HANDOFF_S5_GPR_INDEX, MACHINE_PIF_IPL2_HANDOFF_S6_GPR_INDEX, MACHINE_PIF_IPL2_HANDOFF_S7_GPR_INDEX, MACHINE_PIF_IPL2_HANDOFF_SP_GPR_INDEX, MACHINE_PIF_IPL2_HANDOFF_SP_VALUE, MACHINE_PIF_IPL2_HANDOFF_T3_GPR_INDEX, MACHINE_PIF_IPL2_HANDOFF_T3_VALUE, MACHINE_PIF_IPL2_HANDOFF_X105_SEED, MachineBootstrapControlFlowSource, MachineBootstrapCop0StatusSource, MachineBootstrapCpuStateKind, MachineBootstrapCpuStateUnavailable, MachineBootstrapGprSource, MachineCartridgeBootstrapError, MachinePifBootInputs, MachinePifIpl2HandoffBootMedium, MachinePifIpl2HandoffInputKind, MachinePifIpl2HandoffInputs, MachinePifIpl2HandoffResetKind, MachinePifIpl3Family, MachinePifVersionBit, bootstrap_gpr_access, plan_cold_x105_coupled_handoff};
use fn64_core::machine::rdram_reservation::{CpuRdramReservation};
use fn64_core::mi::{MI_CLEAR_DP_INTERRUPT_WORD, MI_CLEAR_RDRAM_REGISTER_MODE_WORD, MI_INIT_MODE_PHYSICAL_ADDRESS, MI_INIT_MODE_X105_INIT_LENGTH, MI_INIT_MODE_X105_REPEATED_BYTE_COUNT, MI_INIT_MODE_X105_WRITE_WORD, MI_INTR_MASK_PHYSICAL_ADDRESS, MI_SET_RDRAM_REGISTER_MODE_WORD, MI_VERSION_PHYSICAL_ADDRESS, MI_VERSION_STANDARD_RETAIL_NUS_WORD, MI_X105_CLEAR_ALL_INTERRUPT_MASKS_WORD, MachineMiCpuStoreProvenance, MachineMiInitModeSource, MachineMiInitModeState, MachineMiInitTransferState, MachineMiInterruptSource, MachineMiInterruptState, MachineMiRdramRegisterModeSource, MachineMiRdramRegisterModeState, MachineMiVersionState, Mi};
use fn64_core::pi::{MachinePiCompletedDmaState, MachinePiCpuStoreProvenance, MachinePiDmaCompletion, MachinePiDmaDirection, MachinePiProgrammedRegisterState, MachinePiStatusClearState, PI_CART_ADDR_PHYSICAL_ADDRESS, PI_DOMAIN_ONE_ADDRESS_TWO_BASE, PI_DRAM_ADDR_PHYSICAL_ADDRESS, PI_RD_LEN_PHYSICAL_ADDRESS, PI_STATUS_CLEAR_INTERRUPT_WORD, PI_STATUS_PHYSICAL_ADDRESS, PI_WR_LEN_PHYSICAL_ADDRESS, PI_X105_DMA_BYTE_COUNT, PI_X105_WR_LEN_WORD, Pi};
use fn64_core::pif::{PifIpl2Profile};
use fn64_core::rdram::{RDRAM_SIZE_BYTES};

#[test]
fn new_cpu_starts_at_cpp_non_boot_pc_pair() {
    let cpu = Cpu::new();

    assert_eq!(cpu.pc(), NON_BOOT_RESET_VECTOR_PC);
    assert_eq!(cpu.pc(), 0xbfc0_0000);
    assert_eq!(cpu.next_pc(), NON_BOOT_RESET_VECTOR_NEXT_PC);
    assert_eq!(cpu.next_pc(), 0xbfc0_0004);
}

#[test]
fn new_cpu_zeroes_integer_register_state() {
    let cpu = Cpu::new();

    assert_eq!(cpu.hi(), 0);
    assert_eq!(cpu.lo(), 0);
    assert_eq!(cpu.gpr(0), Some(0));

    for index in 0..CPU_GPR_COUNT {
        assert_eq!(cpu.gpr(index), Some(0));
    }
}

#[test]
fn new_cpu_exposes_cpp_gpr_count_boundary() {
    let cpu = Cpu::new();

    assert_eq!(CPU_GPR_COUNT, 32);
    assert_eq!(cpu.gpr(CPU_GPR_COUNT - 1), Some(0));
    assert_eq!(cpu.gpr(CPU_GPR_COUNT), None);
}
