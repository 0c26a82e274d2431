use fn64_core::dpc::{
    Dpc, MachineDpcCounterIdentity, MachineDpcCounterSource, MachineDpcCounterState,
    MachineDpcCounterUnavailableSource, MachineDpcStatusClearRejection, DPC_COUNTER_VALUE_MASK,
    DPC_STATUS_CLEAR_CLOCK_COUNTER, DPC_STATUS_CLEAR_COMMAND_COUNTER,
    DPC_STATUS_CLEAR_PIPE_COUNTER, DPC_STATUS_CLEAR_TMEM_COUNTER,
    DPC_STATUS_X105_COUNTER_CLEAR_COMMAND,
};

#[test]
fn dpc_counter_owner_starts_with_four_independent_unavailable_states() {
    let dpc = Dpc::default();
    for counter in [
        dpc.clock_counter(),
        dpc.command_busy_counter(),
        dpc.pipe_busy_counter(),
        dpc.tmem_load_counter(),
    ] {
        assert_eq!(counter.value(), None);
        assert_eq!(
            counter.unavailable_source(),
            Some(MachineDpcCounterUnavailableSource::ConstructionOrResetUndefined)
        );
    }
}

#[test]
fn dpc_counter_width_invariant_rejects_more_than_twenty_four_bits() {
    let mut dpc = Dpc::default();
    dpc.replace_counter(
        MachineDpcCounterIdentity::Clock,
        MachineDpcCounterState::Available {
            value: DPC_COUNTER_VALUE_MASK + 1,
            source: MachineDpcCounterSource::GeneratedMachineTestStaging,
        },
    );

    assert_eq!(
        dpc.plan_rsp_mtc0_status_clear(0x098, 3, DPC_STATUS_X105_COUNTER_CLEAR_COMMAND, 11),
        Err(MachineDpcStatusClearRejection::MalformedCounter {
            counter: MachineDpcCounterIdentity::Clock,
            value: DPC_COUNTER_VALUE_MASK + 1,
        })
    );
}

#[test]
fn dpc_clock_dpc_tmem_counter_clear_preserves_dpc_pipe_and_dpc_command_counter_truth() {
    let mut dpc = Dpc::default();
    for (counter, value) in [
        (MachineDpcCounterIdentity::Clock, 0x0001_2345),
        (MachineDpcCounterIdentity::CommandBusy, 0x0002_3456),
        (MachineDpcCounterIdentity::PipeBusy, 0x0003_4567),
        (MachineDpcCounterIdentity::TmemLoad, 0x0004_5678),
    ] {
        dpc.replace_counter(
            counter,
            MachineDpcCounterState::Available {
                value,
                source: MachineDpcCounterSource::GeneratedMachineTestStaging,
            },
        );
    }
    let command_before = dpc.command_busy_counter().clone();
    let pipe_before = dpc.pipe_busy_counter().clone();
    let plan = dpc
        .plan_rsp_mtc0_status_clear(0x098, 3, DPC_STATUS_X105_COUNTER_CLEAR_COMMAND, 11)
        .unwrap();
    dpc.apply_rsp_mtc0_status_clear(plan);

    assert_eq!(dpc.clock_counter().value(), Some(0));
    assert_eq!(dpc.tmem_load_counter().value(), Some(0));
    assert_eq!(dpc.command_busy_counter(), &command_before);
    assert_eq!(dpc.pipe_busy_counter(), &pipe_before);
    for (counter, identity, clear_bit) in [
        (dpc.clock_counter(), MachineDpcCounterIdentity::Clock, DPC_STATUS_CLEAR_CLOCK_COUNTER),
        (dpc.tmem_load_counter(), MachineDpcCounterIdentity::TmemLoad, DPC_STATUS_CLEAR_TMEM_COUNTER),
    ] {
        let source = counter.source().unwrap().rsp_mtc0_status_clear().unwrap().clone();
        assert_eq!(source.instruction_pc(), 0x098);
        assert_eq!(source.source_gpr(), 3);
        assert_eq!(source.source_value(), DPC_STATUS_X105_COUNTER_CLEAR_COMMAND);
        assert_eq!(source.control_register_index(), 11);
        assert_eq!(source.raw_command_word(), DPC_STATUS_X105_COUNTER_CLEAR_COMMAND);
        assert_eq!(source.counter_clear_bit(), clear_bit);
        assert_eq!(source.counter(), identity);
    }

    let first_clock_clear = dpc.clock_counter().clone();
    let first_tmem_clear = dpc.tmem_load_counter().clone();
    let repeated = dpc
        .plan_rsp_mtc0_status_clear(0x0a8, 3, DPC_STATUS_X105_COUNTER_CLEAR_COMMAND, 11)
        .unwrap();
    dpc.apply_rsp_mtc0_status_clear(repeated);
    assert_eq!(dpc.clock_counter().value(), Some(0));
    assert_eq!(dpc.tmem_load_counter().value(), Some(0));
    assert_ne!(dpc.clock_counter(), &first_clock_clear);
    assert_ne!(dpc.tmem_load_counter(), &first_tmem_clear);
    assert_eq!(
        dpc.clock_counter().source().unwrap().rsp_mtc0_status_clear().unwrap().instruction_pc(),
        0x0a8
    );
    assert_eq!(
        dpc.tmem_load_counter().source().unwrap().rsp_mtc0_status_clear().unwrap().instruction_pc(),
        0x0a8
    );
    assert_eq!(dpc.command_busy_counter(), &command_before);
    assert_eq!(dpc.pipe_busy_counter(), &pipe_before);
}

#[test]
fn every_non_public_dpc_status_command_rejects_without_mutation() {
    for command in [
        0,
        DPC_STATUS_CLEAR_TMEM_COUNTER,
        DPC_STATUS_CLEAR_CLOCK_COUNTER,
        DPC_STATUS_CLEAR_PIPE_COUNTER,
        DPC_STATUS_CLEAR_COMMAND_COUNTER,
        0x0000_0001,
        0x0000_0002,
        0x0000_0004,
        0x0000_0008,
        0x0000_0010,
        0x0000_0020,
        0x8000_0240,
    ] {
        let dpc = Dpc::default();
        let before = dpc.clone();
        assert_eq!(
            dpc.plan_rsp_mtc0_status_clear(0x098, 3, command, 11),
            Err(MachineDpcStatusClearRejection::UnsupportedCommand { raw_command_word: command })
        );
        assert_eq!(dpc, before);
    }
}

#[test]
fn dpc_malformed_counters_are_reported_in_counter_order() {
    let mut dpc = Dpc::default();
    for counter in [MachineDpcCounterIdentity::PipeBusy, MachineDpcCounterIdentity::TmemLoad] {
        dpc.replace_counter(
            counter,
            MachineDpcCounterState::Available {
                value: 0x0100_0000,
                source: MachineDpcCounterSource::GeneratedMachineTestStaging,
            },
        );
    }
    assert_eq!(
        dpc.plan_rsp_mtc0_status_clear(0x098, 3, 0, 11),
        Err(MachineDpcStatusClearRejection::MalformedCounter {
            counter: MachineDpcCounterIdentity::PipeBusy,
            value: 0x0100_0000,
        })
    );
    dpc.replace_counter(
        MachineDpcCounterIdentity::PipeBusy,
        MachineDpcCounterState::Available {
            value: DPC_COUNTER_VALUE_MASK,
            source: MachineDpcCounterSource::GeneratedMachineTestStaging,
        },
    );
    assert_eq!(
        dpc.plan_rsp_mtc0_status_clear(0x098, 3, DPC_STATUS_X105_COUNTER_CLEAR_COMMAND, 11),
        Err(MachineDpcStatusClearRejection::MalformedCounter {
            counter: MachineDpcCounterIdentity::TmemLoad,
            value: 0x0100_0000,
        })
    );
    assert_eq!(DPC_STATUS_X105_COUNTER_CLEAR_COMMAND, 0x240);
}
