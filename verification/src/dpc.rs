use vstd::prelude::*;

verus! {

/// The DPC counters are 24 bits wide.
pub const DPC_COUNTER_VALUE_MASK: u32 = 0x00ff_ffff;

pub const DPC_STATUS_CLEAR_TMEM_COUNTER: u32 = 0x0000_0040;

pub const DPC_STATUS_CLEAR_PIPE_COUNTER: u32 = 0x0000_0080;

pub const DPC_STATUS_CLEAR_COMMAND_COUNTER: u32 = 0x0000_0100;

pub const DPC_STATUS_CLEAR_CLOCK_COUNTER: u32 = 0x0000_0200;

/// The one DPC status command the x105 boot path issues: the TMEM and clock counter clear
/// bits together.
pub const DPC_STATUS_X105_COUNTER_CLEAR_COMMAND: u32 = 0x0000_0240;

#[derive(Debug, Clone, Copy, PartialEq, Eq, Structural)]
pub enum MachineDpcCounterIdentity {
    Clock,
    CommandBusy,
    PipeBusy,
    TmemLoad,
}

#[derive(Debug, Clone, Copy, PartialEq, Eq, Structural)]
pub enum MachineDpcCounterUnavailableSource {
    ConstructionOrResetUndefined,
}

/// The RSP `mtc0` to DPC status that cleared one counter.
#[derive(Debug, Clone, Copy, PartialEq, Eq, Structural)]
pub struct MachineDpcStatusClearSource {
    pub instruction_pc: u16,
    pub source_gpr: u8,
    pub source_value: u32,
    pub control_register_index: u8,
    pub raw_command_word: u32,
    pub counter_clear_bit: u32,
    pub counter: MachineDpcCounterIdentity,
}

impl MachineDpcStatusClearSource {
    pub fn instruction_pc(&self) -> (r: u16)
        ensures
            r == self.instruction_pc,
    {
        self.instruction_pc
    }

    pub fn source_gpr(&self) -> (r: u8)
        ensures
            r == self.source_gpr,
    {
        self.source_gpr
    }

    pub fn source_value(&self) -> (r: u32)
        ensures
            r == self.source_value,
    {
        self.source_value
    }

    pub fn control_register_index(&self) -> (r: u8)
        ensures
            r == self.control_register_index,
    {
        self.control_register_index
    }

    pub fn raw_command_word(&self) -> (r: u32)
        ensures
            r == self.raw_command_word,
    {
        self.raw_command_word
    }

    pub fn counter_clear_bit(&self) -> (r: u32)
        ensures
            r == self.counter_clear_bit,
    {
        self.counter_clear_bit
    }

    pub fn counter(&self) -> (r: MachineDpcCounterIdentity)
        ensures
            r == self.counter,
    {
        self.counter
    }
}

/// Where an available counter value came from.
#[derive(Debug, Clone, Copy, PartialEq, Eq, Structural)]
pub enum MachineDpcCounterSource {
    RspMtc0StatusClear(MachineDpcStatusClearSource),
    GeneratedMachineTestStaging,
}

impl MachineDpcCounterSource {
    pub fn rsp_mtc0_status_clear(&self) -> (r: Option<&MachineDpcStatusClearSource>)
        ensures
            match self {
                MachineDpcCounterSource::RspMtc0StatusClear(source) => r == Some(source),
                MachineDpcCounterSource::GeneratedMachineTestStaging => r is None,
            },
    {
        match self {
            MachineDpcCounterSource::RspMtc0StatusClear(source) => Some(source),
            MachineDpcCounterSource::GeneratedMachineTestStaging => None,
        }
    }
}

/// One DPC counter: a value with its source, or unavailable.
#[derive(Debug, Clone, Copy, PartialEq, Eq, Structural)]
pub enum MachineDpcCounterState {
    Available { value: u32, source: MachineDpcCounterSource },
    Unavailable { source: MachineDpcCounterUnavailableSource },
}

impl MachineDpcCounterState {
    /// A counter value fits the 24-bit counter width.
    pub open spec fn spec_invariant_holds(self) -> bool {
        match self {
            MachineDpcCounterState::Available { value, .. } => value <= DPC_COUNTER_VALUE_MASK,
            MachineDpcCounterState::Unavailable { .. } => true,
        }
    }

    pub fn value(&self) -> (r: Option<u32>)
        ensures
            match self {
                MachineDpcCounterState::Available { value, .. } => r == Some(*value),
                MachineDpcCounterState::Unavailable { .. } => r is None,
            },
    {
        match self {
            MachineDpcCounterState::Available { value, .. } => Some(*value),
            MachineDpcCounterState::Unavailable { .. } => None,
        }
    }

    pub fn source(&self) -> (r: Option<MachineDpcCounterSource>)
        ensures
            match self {
                MachineDpcCounterState::Available { source, .. } => r == Some(*source),
                MachineDpcCounterState::Unavailable { .. } => r is None,
            },
    {
        match self {
            MachineDpcCounterState::Available { source, .. } => Some(*source),
            MachineDpcCounterState::Unavailable { .. } => None,
        }
    }

    pub fn unavailable_source(&self) -> (r: Option<MachineDpcCounterUnavailableSource>)
        ensures
            match self {
                MachineDpcCounterState::Available { .. } => r is None,
                MachineDpcCounterState::Unavailable { source } => r == Some(*source),
            },
    {
        match self {
            MachineDpcCounterState::Available { .. } => None,
            MachineDpcCounterState::Unavailable { source } => Some(*source),
        }
    }

    fn construction_or_reset_undefined() -> (r: Self)
        ensures
            r == (MachineDpcCounterState::Unavailable {
                source: MachineDpcCounterUnavailableSource::ConstructionOrResetUndefined,
            }),
    {
        MachineDpcCounterState::Unavailable {
            source: MachineDpcCounterUnavailableSource::ConstructionOrResetUndefined,
        }
    }

    fn invariant_holds(&self) -> (r: bool)
        ensures
            r == self.spec_invariant_holds(),
    {
        match self {
            MachineDpcCounterState::Available { value, .. } => *value <= DPC_COUNTER_VALUE_MASK,
            MachineDpcCounterState::Unavailable { .. } => true,
        }
    }
}

/// Why a DPC status-clear command is refused.
#[derive(Debug, Clone, Copy, PartialEq, Eq, Structural)]
pub enum MachineDpcStatusClearRejection {
    UnsupportedCommand { raw_command_word: u32 },
    MalformedCounter { counter: MachineDpcCounterIdentity, value: u32 },
}

/// The two counters a status clear replaces.
#[derive(Debug, Clone, Copy, PartialEq, Eq, Structural)]
pub struct MachineDpcStatusClearPlan {
    pub clock_counter: MachineDpcCounterState,
    pub tmem_load_counter: MachineDpcCounterState,
}

/// The DPC's four counters.
#[derive(Debug, Clone, Copy, PartialEq, Eq)]
pub struct Dpc {
    clock_counter: MachineDpcCounterState,
    command_busy_counter: MachineDpcCounterState,
    pipe_busy_counter: MachineDpcCounterState,
    tmem_load_counter: MachineDpcCounterState,
}

/// The abstract value of a [`Dpc`].
pub ghost struct DpcCounters {
    pub clock: MachineDpcCounterState,
    pub command_busy: MachineDpcCounterState,
    pub pipe_busy: MachineDpcCounterState,
    pub tmem_load: MachineDpcCounterState,
}

impl View for Dpc {
    type V = DpcCounters;

    closed spec fn view(&self) -> DpcCounters {
        DpcCounters {
            clock: self.clock_counter,
            command_busy: self.command_busy_counter,
            pipe_busy: self.pipe_busy_counter,
            tmem_load: self.tmem_load_counter,
        }
    }
}

impl DpcCounters {
    /// The counter named `counter`.
    pub open spec fn counter(self, counter: MachineDpcCounterIdentity) -> MachineDpcCounterState {
        match counter {
            MachineDpcCounterIdentity::Clock => self.clock,
            MachineDpcCounterIdentity::CommandBusy => self.command_busy,
            MachineDpcCounterIdentity::PipeBusy => self.pipe_busy,
            MachineDpcCounterIdentity::TmemLoad => self.tmem_load,
        }
    }

    /// Every counter fits the counter width.
    pub open spec fn all_counters_fit(self) -> bool {
        &&& self.clock.spec_invariant_holds()
        &&& self.command_busy.spec_invariant_holds()
        &&& self.pipe_busy.spec_invariant_holds()
        &&& self.tmem_load.spec_invariant_holds()
    }
}

/// A counter cleared to zero by a status-clear command.
pub open spec fn spec_cleared_counter(
    counter: MachineDpcCounterIdentity,
    counter_clear_bit: u32,
    instruction_pc: u16,
    source_gpr: u8,
    source_value: u32,
    control_register_index: u8,
) -> MachineDpcCounterState {
    MachineDpcCounterState::Available {
        value: 0,
        source: MachineDpcCounterSource::RspMtc0StatusClear(
            MachineDpcStatusClearSource {
                instruction_pc,
                source_gpr,
                source_value,
                control_register_index,
                raw_command_word: source_value,
                counter_clear_bit,
                counter,
            },
        ),
    }
}

/// The planned outcome of an RSP status-clear command: the first counter, in the order
/// clock, command busy, pipe busy, TMEM load, that does not fit the counter width refuses
/// it; then any command other than the x105 counter clear is refused; otherwise the clock
/// and TMEM load counters are cleared to zero with the command as their source.
pub open spec fn spec_rsp_mtc0_status_clear_plan(
    counters: DpcCounters,
    instruction_pc: u16,
    source_gpr: u8,
    source_value: u32,
    control_register_index: u8,
) -> Result<MachineDpcStatusClearPlan, MachineDpcStatusClearRejection> {
    if !counters.clock.spec_invariant_holds() {
        Err(
            MachineDpcStatusClearRejection::MalformedCounter {
                counter: MachineDpcCounterIdentity::Clock,
                value: counters.clock->value,
            },
        )
    } else if !counters.command_busy.spec_invariant_holds() {
        Err(
            MachineDpcStatusClearRejection::MalformedCounter {
                counter: MachineDpcCounterIdentity::CommandBusy,
                value: counters.command_busy->value,
            },
        )
    } else if !counters.pipe_busy.spec_invariant_holds() {
        Err(
            MachineDpcStatusClearRejection::MalformedCounter {
                counter: MachineDpcCounterIdentity::PipeBusy,
                value: counters.pipe_busy->value,
            },
        )
    } else if !counters.tmem_load.spec_invariant_holds() {
        Err(
            MachineDpcStatusClearRejection::MalformedCounter {
                counter: MachineDpcCounterIdentity::TmemLoad,
                value: counters.tmem_load->value,
            },
        )
    } else if source_value != DPC_STATUS_X105_COUNTER_CLEAR_COMMAND {
        Err(MachineDpcStatusClearRejection::UnsupportedCommand { raw_command_word: source_value })
    } else {
        Ok(
            MachineDpcStatusClearPlan {
                clock_counter: spec_cleared_counter(
                    MachineDpcCounterIdentity::Clock,
                    DPC_STATUS_CLEAR_CLOCK_COUNTER,
                    instruction_pc,
                    source_gpr,
                    source_value,
                    control_register_index,
                ),
                tmem_load_counter: spec_cleared_counter(
                    MachineDpcCounterIdentity::TmemLoad,
                    DPC_STATUS_CLEAR_TMEM_COUNTER,
                    instruction_pc,
                    source_gpr,
                    source_value,
                    control_register_index,
                ),
            },
        )
    }
}

impl Default for Dpc {
    fn default() -> (r: Self)
        ensures
            r@.clock == (MachineDpcCounterState::Unavailable {
                source: MachineDpcCounterUnavailableSource::ConstructionOrResetUndefined,
            }),
            r@.command_busy == r@.clock,
            r@.pipe_busy == r@.clock,
            r@.tmem_load == r@.clock,
    {
        Self {
            clock_counter: MachineDpcCounterState::construction_or_reset_undefined(),
            command_busy_counter: MachineDpcCounterState::construction_or_reset_undefined(),
            pipe_busy_counter: MachineDpcCounterState::construction_or_reset_undefined(),
            tmem_load_counter: MachineDpcCounterState::construction_or_reset_undefined(),
        }
    }
}

impl Dpc {
    pub fn clock_counter(&self) -> (r: &MachineDpcCounterState)
        ensures
            *r == self@.clock,
    {
        &self.clock_counter
    }

    pub fn command_busy_counter(&self) -> (r: &MachineDpcCounterState)
        ensures
            *r == self@.command_busy,
    {
        &self.command_busy_counter
    }

    pub fn pipe_busy_counter(&self) -> (r: &MachineDpcCounterState)
        ensures
            *r == self@.pipe_busy,
    {
        &self.pipe_busy_counter
    }

    pub fn tmem_load_counter(&self) -> (r: &MachineDpcCounterState)
        ensures
            *r == self@.tmem_load,
    {
        &self.tmem_load_counter
    }

    /// Plans an RSP `mtc0` to the DPC status register without changing the counters.
    pub fn plan_rsp_mtc0_status_clear(
        &self,
        instruction_pc: u16,
        source_gpr: u8,
        source_value: u32,
        control_register_index: u8,
    ) -> (r: Result<MachineDpcStatusClearPlan, MachineDpcStatusClearRejection>)
        ensures
            r == spec_rsp_mtc0_status_clear_plan(
                self@,
                instruction_pc,
                source_gpr,
                source_value,
                control_register_index,
            ),
    {
        match self.validate_counter(MachineDpcCounterIdentity::Clock, &self.clock_counter) {
            Ok(()) => {},
            Err(rejection) => {
                return Err(rejection);
            },
        }
        match self.validate_counter(
            MachineDpcCounterIdentity::CommandBusy,
            &self.command_busy_counter,
        ) {
            Ok(()) => {},
            Err(rejection) => {
                return Err(rejection);
            },
        }
        match self.validate_counter(MachineDpcCounterIdentity::PipeBusy, &self.pipe_busy_counter) {
            Ok(()) => {},
            Err(rejection) => {
                return Err(rejection);
            },
        }
        match self.validate_counter(MachineDpcCounterIdentity::TmemLoad, &self.tmem_load_counter) {
            Ok(()) => {},
            Err(rejection) => {
                return Err(rejection);
            },
        }
        if source_value != DPC_STATUS_X105_COUNTER_CLEAR_COMMAND {
            return Err(
                MachineDpcStatusClearRejection::UnsupportedCommand { raw_command_word: source_value },
            );
        }
        Ok(
            MachineDpcStatusClearPlan {
                clock_counter: cleared_counter(
                    MachineDpcCounterIdentity::Clock,
                    DPC_STATUS_CLEAR_CLOCK_COUNTER,
                    instruction_pc,
                    source_gpr,
                    source_value,
                    control_register_index,
                ),
                tmem_load_counter: cleared_counter(
                    MachineDpcCounterIdentity::TmemLoad,
                    DPC_STATUS_CLEAR_TMEM_COUNTER,
                    instruction_pc,
                    source_gpr,
                    source_value,
                    control_register_index,
                ),
            },
        )
    }

    /// Installs a planned status clear: the clock and TMEM load counters are replaced.
    pub fn apply_rsp_mtc0_status_clear(&mut self, plan: MachineDpcStatusClearPlan)
        ensures
            final(self)@ == (DpcCounters {
                clock: plan.clock_counter,
                tmem_load: plan.tmem_load_counter,
                ..old(self)@
            }),
    {
        self.clock_counter = plan.clock_counter;
        self.tmem_load_counter = plan.tmem_load_counter;
    }

    fn validate_counter(
        &self,
        counter: MachineDpcCounterIdentity,
        state: &MachineDpcCounterState,
    ) -> (r: Result<(), MachineDpcStatusClearRejection>)
        ensures
            state.spec_invariant_holds() ==> r is Ok,
            !state.spec_invariant_holds() ==> r == Err::<(), MachineDpcStatusClearRejection>(
                MachineDpcStatusClearRejection::MalformedCounter { counter, value: state->value },
            ),
    {
        if state.invariant_holds() {
            return Ok(());
        }
        match state.value() {
            Some(value) => Err(MachineDpcStatusClearRejection::MalformedCounter { counter, value }),
            None => Ok(()),
        }
    }

    /// Replaces one counter outright (machine staging for tests).
    pub fn replace_counter(&mut self, counter: MachineDpcCounterIdentity, state: MachineDpcCounterState)
        ensures
            final(self)@ == (match counter {
                MachineDpcCounterIdentity::Clock => DpcCounters { clock: state, ..old(self)@ },
                MachineDpcCounterIdentity::CommandBusy => DpcCounters {
                    command_busy: state,
                    ..old(self)@
                },
                MachineDpcCounterIdentity::PipeBusy => DpcCounters {
                    pipe_busy: state,
                    ..old(self)@
                },
                MachineDpcCounterIdentity::TmemLoad => DpcCounters {
                    tmem_load: state,
                    ..old(self)@
                },
            }),
    {
        match counter {
            MachineDpcCounterIdentity::Clock => self.clock_counter = state,
            MachineDpcCounterIdentity::CommandBusy => self.command_busy_counter = state,
            MachineDpcCounterIdentity::PipeBusy => self.pipe_busy_counter = state,
            MachineDpcCounterIdentity::TmemLoad => self.tmem_load_counter = state,
        }
    }
}

fn cleared_counter(
    counter: MachineDpcCounterIdentity,
    counter_clear_bit: u32,
    instruction_pc: u16,
    source_gpr: u8,
    source_value: u32,
    control_register_index: u8,
) -> (r: MachineDpcCounterState)
    ensures
        r == spec_cleared_counter(
            counter,
            counter_clear_bit,
            instruction_pc,
            source_gpr,
            source_value,
            control_register_index,
        ),
{
    MachineDpcCounterState::Available {
        value: 0,
        source: MachineDpcCounterSource::RspMtc0StatusClear(
            MachineDpcStatusClearSource {
                instruction_pc,
                source_gpr,
                source_value,
                control_register_index,
                raw_command_word: source_value,
                counter_clear_bit,
                counter,
            },
        ),
    }
}

/// An accepted status clear zeroes the clock and TMEM load counters, leaves the command
/// busy and pipe busy counters as they were, and keeps every counter within the counter
/// width.
pub proof fn lemma_status_clear_effect(
    counters: DpcCounters,
    instruction_pc: u16,
    source_gpr: u8,
    source_value: u32,
    control_register_index: u8,
)
    requires
        spec_rsp_mtc0_status_clear_plan(
            counters,
            instruction_pc,
            source_gpr,
            source_value,
            control_register_index,
        ) is Ok,
    ensures
        ({
            let plan = spec_rsp_mtc0_status_clear_plan(
                counters,
                instruction_pc,
                source_gpr,
                source_value,
                control_register_index,
            )->Ok_0;
            let after = DpcCounters {
                clock: plan.clock_counter,
                tmem_load: plan.tmem_load_counter,
                ..counters
            };
            &&& after.clock->value == 0
            &&& after.tmem_load->value == 0
            &&& after.command_busy == counters.command_busy
            &&& after.pipe_busy == counters.pipe_busy
            &&& source_value == DPC_STATUS_X105_COUNTER_CLEAR_COMMAND
            &&& counters.all_counters_fit()
            &&& after.all_counters_fit()
        }),
{
}

/// Only the x105 counter-clear command is ever accepted.
pub proof fn lemma_only_x105_clear_is_accepted(
    counters: DpcCounters,
    instruction_pc: u16,
    source_gpr: u8,
    source_value: u32,
    control_register_index: u8,
)
    requires
        counters.all_counters_fit(),
    ensures
        spec_rsp_mtc0_status_clear_plan(
            counters,
            instruction_pc,
            source_gpr,
            source_value,
            control_register_index,
        ) is Ok <==> source_value == DPC_STATUS_X105_COUNTER_CLEAR_COMMAND,
{
}

} // verus!
