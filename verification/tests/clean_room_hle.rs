use fn64_core::cartridge::byte_order::RomSourceLayout;
use fn64_core::cartridge::{load_cartridge, CartridgeReadError};
use fn64_core::cpu::address::CpuAddress;
use fn64_core::cpu::cop1::MachineCop1Fcr31Source;
use fn64_core::cpu::registers::CpuRegisterIndexError;
use fn64_core::cpu::CPU_GPR_COUNT;
use fn64_core::machine::cartridge_bootstrap::{
    MachineBootstrapCop0StatusSource, MachineBootstrapCpuStateKind, MachineBootstrapGprSource,
    MachinePifBootInputs,
};
use fn64_core::pif::PifIpl2Profile;
use fn64_core::machine::clean_room_hle::{
    stage_clean_room_cartridge_entry, MachineCleanRoomBootProfile, MachineCleanRoomHleError,
    MACHINE_CLEAN_ROOM_CARTRIDGE_SOURCE_END_OFFSET_EXCLUSIVE,
    MACHINE_CLEAN_ROOM_CARTRIDGE_SOURCE_START_OFFSET, MACHINE_CLEAN_ROOM_COP0_PAGE_MASK,
    MACHINE_CLEAN_ROOM_COP0_STATUS,
};

const GENERATED_ENTRY: u32 = 0x8000_1000;
const GENERATED_ENTRY_INSTRUCTION: u32 = 0x2402_0042;

fn write_be_u32(bytes: &mut [u8], offset: usize, value: u32) {
    bytes[offset..offset + 4].copy_from_slice(&value.to_be_bytes());
}

fn generated_cartridge(entry: u32, payload_variant: u32) -> Vec<u8> {
    let mut bytes = vec![0; MACHINE_CLEAN_ROOM_CARTRIDGE_SOURCE_END_OFFSET_EXCLUSIVE as usize];
    write_be_u32(&mut bytes, 0x00, 0x8037_1240);
    write_be_u32(&mut bytes, 0x04, 0x0102_0304);
    write_be_u32(&mut bytes, 0x08, entry);
    write_be_u32(&mut bytes, 0x0c, 0x0506_0708);
    write_be_u32(&mut bytes, 0x10, 0x1112_1314);
    write_be_u32(&mut bytes, 0x14, 0x1516_1718);
    bytes[0x20..0x34].copy_from_slice(b"FN64 CLEAN ROOM HLE ");
    bytes[0x3c] = b'H';
    bytes[0x3d] = b'L';
    bytes[0x3e] = 0x45;
    bytes[0x3f] = 1;
    for (index, word_bytes) in bytes[MACHINE_CLEAN_ROOM_CARTRIDGE_SOURCE_START_OFFSET as usize..]
        .chunks_exact_mut(4)
        .enumerate()
    {
        let index = index as u32;
        let word = index.wrapping_mul(0x045d_9f3b).rotate_left(7) ^ 0x9e37_79b9 ^ payload_variant;
        word_bytes.copy_from_slice(&word.to_be_bytes());
    }
    write_be_u32(
        &mut bytes,
        MACHINE_CLEAN_ROOM_CARTRIDGE_SOURCE_START_OFFSET as usize,
        GENERATED_ENTRY_INSTRUCTION,
    );
    bytes
}

fn no_boot_inputs() -> MachinePifBootInputs {
    MachinePifBootInputs {
        firmware_installed: false,
        profile: None,
        ipl3_family: None,
        reset_kind: None,
        boot_medium: None,
        pif_version_bit: None,
    }
}

fn stage_with(
    bytes: Vec<u8>,
    inputs: MachinePifBootInputs,
) -> Result<fn64_core::machine::clean_room_hle::MachineCleanRoomHleHandoff, MachineCleanRoomHleError>
{
    let cartridge = load_cartridge(bytes).unwrap();
    stage_clean_room_cartridge_entry(&cartridge, inputs, MachineCleanRoomBootProfile::NtscX105Pinned)
}

fn stage(
    bytes: Vec<u8>,
) -> Result<fn64_core::machine::clean_room_hle::MachineCleanRoomHleHandoff, MachineCleanRoomHleError>
{
    stage_with(bytes, no_boot_inputs())
}

#[test]
fn clean_room_handoff_stages_pinned_profile_registers_and_payload() {
    let bytes = generated_cartridge(GENERATED_ENTRY, 0);
    let cartridge = load_cartridge(bytes.clone()).unwrap();
    let handoff = stage_clean_room_cartridge_entry(
        &cartridge,
        no_boot_inputs(),
        MachineCleanRoomBootProfile::NtscX105Pinned,
    )
    .unwrap();
    let state = handoff.state;
    assert_eq!(state.profile(), MachineCleanRoomBootProfile::NtscX105Pinned);
    assert_eq!(state.source_layout(), RomSourceLayout::BigEndian);
    assert_eq!(state.cartridge_start_offset(), 0x1000);
    assert_eq!(state.cartridge_end_offset_exclusive(), 0x0010_1000);
    assert_eq!(state.rdram_start_offset(), 0x1000);
    assert_eq!(state.rdram_end_offset_exclusive(), 0x0010_1000);
    assert_eq!(state.execution_pc(), CpuAddress::new(GENERATED_ENTRY));
    assert_eq!(state.next_pc(), CpuAddress::new(GENERATED_ENTRY + 4));
    assert_eq!(
        state.cpu_state_kind(),
        MachineBootstrapCpuStateKind::CleanRoomCartridgeEntryNtscX105Pinned
    );
    assert_eq!(
        state.cop0_status_source(),
        MachineBootstrapCop0StatusSource::CleanRoomHlePublicProfile
    );

    assert_eq!(handoff.rdram_payload.len(), 0x0010_0000);
    assert_eq!(handoff.rdram_payload[..], bytes[0x1000..0x0010_1000]);
    assert_eq!(
        handoff.pi_domain_one_timing,
        cartridge.metadata().pi_domain_one_timing
    );

    let cpu = &handoff.cpu;
    assert_eq!(cpu.pc(), GENERATED_ENTRY);
    assert_eq!(cpu.next_pc(), GENERATED_ENTRY + 4);
    assert_eq!(cpu.delay_slot_context(), None);
    assert_eq!(cpu.hi(), 0x34);
    assert_eq!(cpu.lo(), 0xffff_ffff_df26_f435);
    assert_eq!(cpu.cop0_count(), 0);
    assert_eq!(cpu.cop0_status(), MACHINE_CLEAN_ROOM_COP0_STATUS);
    assert_eq!(cpu.cop0_page_mask(), Some(MACHINE_CLEAN_ROOM_COP0_PAGE_MASK));
    assert_eq!(cpu.cop1_fcr31_state().map(|state| state.raw_word()), Some(0));
    assert_eq!(
        cpu.cop1_fcr31_state().map(|state| state.source()),
        Some(MachineCop1Fcr31Source::CleanRoomHleNtscX105Pinned)
    );
    let gprs: Vec<u64> = (0..CPU_GPR_COUNT).map(|index| cpu.gpr(index).unwrap()).collect();
    assert_eq!(
        gprs,
        vec![
            0,
            0xffff_ffff_a460_0000,
            0xffff_ffff_d907_1b05,
            5,
            0x20e3_60bb,
            0x1eef_776c,
            0xffff_ffff_d26c_5fa6,
            0xffff_ffff_fad4_0ecc,
            0xffff_ffff_a400_2000,
            0xffff_ffff_8000_1000,
            0xffff_ffff_df28_f436,
            0xffff_ffff_b000_0000,
            0x1eef_776c,
            0x20,
            0xffff_ffff_c1c7_835a,
            0xffff_ffff_a000_02ff,
            0x400,
            0xffff_ffff_a3f0_8000,
            0x0018_0000,
            0,
            1,
            0,
            0xffff_ffff_a000_0200,
            0,
            0xffff_ffff_ca7a_1833,
            0x3b13_8d96,
            0xffff_ffff_a430_0000,
            1,
            8,
            0xffff_ffff_a400_1ff0,
            0xffff_ffff_a400_1f90,
            0xffff_ffff_a400_0324,
        ]
    );
}

#[test]
fn clean_room_handoff_records_register_sources() {
    let handoff = stage(generated_cartridge(GENERATED_ENTRY, 0)).unwrap();
    let state = handoff.state;
    assert_eq!(
        state.gpr_source(0),
        Some(MachineBootstrapGprSource::ArchitecturalZero)
    );
    assert_eq!(
        state.gpr_source(9),
        Some(MachineBootstrapGprSource::CleanRoomHleCartridgeEntry)
    );
    for index in [2_usize, 3, 4, 5, 6, 7, 10, 12, 14, 24, 25] {
        assert_eq!(
            state.gpr_source(index),
            Some(MachineBootstrapGprSource::CleanRoomHleCartridgePayload)
        );
    }
    for index in [1_usize, 8, 11, 13, 15, 16, 17, 18, 19, 20, 21, 22, 23, 26, 27, 28, 29, 30, 31] {
        assert_eq!(
            state.gpr_source(index),
            Some(MachineBootstrapGprSource::CleanRoomHlePublicProfile)
        );
    }
    assert_eq!(state.gpr_source(CPU_GPR_COUNT), None);
    assert_eq!(state.gpr_is_known(5), Some(true));
    assert_eq!(state.gpr_is_known(CPU_GPR_COUNT), None);

    let mut recorded = state;
    recorded.record_gpr_source(5, MachineBootstrapGprSource::UnknownPifProduced);
    assert_eq!(recorded.gpr_is_known(5), Some(false));
    recorded.record_gpr_source(0, MachineBootstrapGprSource::UnknownPifProduced);
    assert_eq!(
        recorded.gpr_source(0),
        Some(MachineBootstrapGprSource::ArchitecturalZero)
    );
}

#[test]
fn clean_room_handoff_depends_on_payload_contents() {
    let first = stage(generated_cartridge(GENERATED_ENTRY, 0)).unwrap();
    let second = stage(generated_cartridge(GENERATED_ENTRY, 1)).unwrap();
    assert_ne!(first.cpu.gpr(5), second.cpu.gpr(5));
    assert_eq!(first.cpu.gpr(9), second.cpu.gpr(9));
    assert_eq!(first.cpu.hi(), second.cpu.hi());
}

#[test]
fn clean_room_handoff_refuses_installed_pif_boot_inputs() {
    let firmware = MachinePifBootInputs { firmware_installed: true, ..no_boot_inputs() };
    let error = stage_with(generated_cartridge(GENERATED_ENTRY, 0), firmware).err().unwrap();
    assert_eq!(error, MachineCleanRoomHleError::ConflictingPifBootInputs);
    let profile = MachinePifBootInputs { profile: Some(PifIpl2Profile::NtscPinned), ..no_boot_inputs() };
    assert_eq!(
        stage_with(generated_cartridge(GENERATED_ENTRY, 0), profile).err(),
        Some(MachineCleanRoomHleError::ConflictingPifBootInputs)
    );
    assert_eq!(
        error.to_string(),
        "clean-room cartridge-entry staging rejects installed PIF boot inputs"
    );
}

#[test]
fn clean_room_handoff_refuses_short_cartridge() {
    let mut bytes = generated_cartridge(GENERATED_ENTRY, 0);
    bytes.truncate(0x1000);
    let error = stage(bytes).err().unwrap();
    assert_eq!(
        error,
        MachineCleanRoomHleError::CartridgeSourceRangeUnavailable {
            required_end_offset_exclusive: 0x0010_1000,
            actual_size_bytes: 0x1000,
        }
    );
    assert_eq!(
        error.to_string(),
        "clean-room cartridge source range unavailable: required_end=1052672 actual_size=4096"
    );
}

#[test]
fn clean_room_handoff_refuses_entry_outside_kseg0() {
    let error = stage(generated_cartridge(0xa000_1000, 0)).err().unwrap();
    assert_eq!(
        error,
        MachineCleanRoomHleError::UnsupportedEntryAddress { entry_address: 0xa000_1000 }
    );
    assert_eq!(
        error.to_string(),
        "clean-room cartridge entry address unsupported by pinned profile: address=0xA0001000"
    );
    assert!(stage(generated_cartridge(0x7fff_fffc, 0)).is_err());
}

#[test]
fn clean_room_handoff_refuses_payload_past_rdram_end() {
    let error = stage(generated_cartridge(0x8030_0004, 0)).err().unwrap();
    assert_eq!(
        error,
        MachineCleanRoomHleError::RdramDestinationRangeUnavailable {
            start_offset: 0x0030_0004,
            byte_count: 0x0010_0000,
        }
    );
    assert_eq!(
        error.to_string(),
        "clean-room RDRAM destination unavailable: start=3145732 width=1048576"
    );
    let high = stage(generated_cartridge(0x9fff_0000, 0)).err().unwrap();
    assert_eq!(
        high,
        MachineCleanRoomHleError::RdramDestinationRangeUnavailable {
            start_offset: 0x1fff_0000,
            byte_count: 0x0010_0000,
        }
    );
}

#[test]
fn clean_room_handoff_accepts_payload_ending_at_rdram_end() {
    let handoff = stage(generated_cartridge(0x8030_0000, 0)).unwrap();
    assert_eq!(handoff.state.rdram_start_offset(), 0x0030_0000);
    assert_eq!(handoff.state.rdram_end_offset_exclusive(), 0x0040_0000);
    assert_eq!(handoff.cpu.pc(), 0x8030_0000);
    assert_eq!(handoff.cpu.gpr(9), Some(0xffff_ffff_8030_0000));
}

#[test]
fn clean_room_nested_error_messages() {
    let read = MachineCleanRoomHleError::CartridgeRead(CartridgeReadError::OutOfRange {
        addr: 0x10,
        width: 1,
        size: 4,
    });
    assert_eq!(
        read.to_string(),
        "clean-room cartridge source read rejected: cartridge read out of range: addr=0x00000010 width=1 size=4"
    );
    let register = MachineCleanRoomHleError::CpuRegister(CpuRegisterIndexError { index: 40 });
    assert_eq!(
        register.to_string(),
        "clean-room CPU register staging rejected: CPU GPR index out of range: 40"
    );
}

#[test]
fn clean_room_profile_name() {
    assert_eq!(MachineCleanRoomBootProfile::NtscX105Pinned.name(), "ntsc-x105-pinned");
}

#[test]
fn unavailable_or_invalid_clean_room_handoff_rejects_before_machine_mutation() {
    let mut short_bytes = generated_cartridge(GENERATED_ENTRY, 0);
    short_bytes.truncate(0x1000);
    assert!(matches!(
        stage(short_bytes),
        Err(MachineCleanRoomHleError::CartridgeSourceRangeUnavailable { .. })
    ));

    assert_eq!(
        stage(generated_cartridge(0xa000_1000, 0)).err(),
        Some(MachineCleanRoomHleError::UnsupportedEntryAddress { entry_address: 0xa000_1000 })
    );
}
