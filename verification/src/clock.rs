//! The clock sequencer: from the internal oscillator through the frequency
//! multiplier to the system clock, in the order the hardware demands.
//!
//! The sequencer is a state machine. At every stage it names one action, an
//! update of a register or a poll of one, and [`ClockSequencer::advance`]
//! takes what happened to the next stage. Every wait is bounded by the spin
//! budget and ends in a timeout that names the wait.

use vstd::prelude::*;
use crate::regs::{
    field, lemma_perform_one_more, perform_all, Register, RegisterFile, RegisterWrite,
};

verus! {

/// Frequency of the internal oscillator in hertz.
pub const HSI_HZ: u32 = 8_000_000;

/// What feeds the frequency multiplier.
#[derive(Clone, Copy, Debug, PartialEq, Eq, Structural)]
pub enum OscillatorSource {
    /// The internal oscillator through the predivider.
    Hsi,
    /// The internal oscillator through the fixed divider by two; the
    /// predivider is programmed but takes no part.
    HsiHalved,
}

/// The clock tree to set up.
#[derive(Clone, Copy, Debug, PartialEq, Eq, Structural)]
pub struct ClockPlan {
    pub oscillator_source: OscillatorSource,
    /// Factor of the multiplier, 2 to 16.
    pub multiplier_factor: u8,
    /// Divider in front of the multiplier, 1 to 16.
    pub predivider: u8,
    /// Divider from system clock to core bus: 1, 2, 4, 8, 16, 64, 128, 256 or 512.
    pub ahb_prescaler: u16,
    /// Divider from core bus to the first peripheral bus: 1, 2, 4, 8 or 16.
    pub apb1_prescaler: u8,
    /// Divider from core bus to the second peripheral bus: 1, 2, 4, 8 or 16.
    pub apb2_prescaler: u8,
    /// Wait states of a flash access, 0 to 2.
    pub flash_wait_states: u8,
}

/// The code of a core bus divider in its four-bit field, where there is one.
pub open spec fn ahb_code(divider: u16) -> Option<u32> {
    if divider == 1 {
        Some(0u32)
    } else if divider == 2 {
        Some(8u32)
    } else if divider == 4 {
        Some(9u32)
    } else if divider == 8 {
        Some(10u32)
    } else if divider == 16 {
        Some(11u32)
    } else if divider == 64 {
        Some(12u32)
    } else if divider == 128 {
        Some(13u32)
    } else if divider == 256 {
        Some(14u32)
    } else if divider == 512 {
        Some(15u32)
    } else {
        None
    }
}

/// The code of a peripheral bus divider in its three-bit field, where there is one.
pub open spec fn apb_code(divider: u8) -> Option<u32> {
    if divider == 1 {
        Some(0u32)
    } else if divider == 2 {
        Some(4u32)
    } else if divider == 4 {
        Some(5u32)
    } else if divider == 8 {
        Some(6u32)
    } else if divider == 16 {
        Some(7u32)
    } else {
        None
    }
}

/// Computes the field code of a core bus divider.
pub fn encode_ahb(divider: u16) -> (code: Option<u32>)
    ensures
        code == ahb_code(divider),
{
    if divider == 1 {
        Some(0)
    } else if divider == 2 {
        Some(8)
    } else if divider == 4 {
        Some(9)
    } else if divider == 8 {
        Some(10)
    } else if divider == 16 {
        Some(11)
    } else if divider == 64 {
        Some(12)
    } else if divider == 128 {
        Some(13)
    } else if divider == 256 {
        Some(14)
    } else if divider == 512 {
        Some(15)
    } else {
        None
    }
}

/// Computes the field code of a peripheral bus divider.
pub fn encode_apb(divider: u8) -> (code: Option<u32>)
    ensures
        code == apb_code(divider),
{
    if divider == 1 {
        Some(0)
    } else if divider == 2 {
        Some(4)
    } else if divider == 4 {
        Some(5)
    } else if divider == 8 {
        Some(6)
    } else if divider == 16 {
        Some(7)
    } else {
        None
    }
}

impl ClockPlan {
    /// A plan is valid when every value of it has a code in its register field.
    pub open spec fn is_valid(self) -> bool {
        &&& 2 <= self.multiplier_factor <= 16
        &&& 1 <= self.predivider <= 16
        &&& ahb_code(self.ahb_prescaler) is Some
        &&& apb_code(self.apb1_prescaler) is Some
        &&& apb_code(self.apb2_prescaler) is Some
        &&& self.flash_wait_states <= 2
    }

    /// Frequency at the multiplier's input.
    pub open spec fn pll_input_hz(self) -> int {
        match self.oscillator_source {
            OscillatorSource::Hsi => HSI_HZ as int / self.predivider as int,
            OscillatorSource::HsiHalved => HSI_HZ as int / 2,
        }
    }

    /// Frequency of the system clock once the multiplier drives it.
    pub open spec fn sysclk_hz(self) -> int {
        self.pll_input_hz() * self.multiplier_factor
    }

    /// Frequency of the core bus.
    pub open spec fn hclk_hz(self) -> int {
        self.sysclk_hz() / self.ahb_prescaler as int
    }

    /// Frequency of the first peripheral bus.
    pub open spec fn pclk1_hz(self) -> int {
        self.hclk_hz() / self.apb1_prescaler as int
    }

    /// Frequency of the second peripheral bus.
    pub open spec fn pclk2_hz(self) -> int {
        self.hclk_hz() / self.apb2_prescaler as int
    }

    /// The clocks that run once this plan is in force and `source` drives the
    /// system clock.
    pub open spec fn clocks(self, source: SystemClockSource) -> ActiveClocks {
        ActiveClocks {
            source,
            sysclk_hz: self.sysclk_hz() as u32,
            hclk_hz: self.hclk_hz() as u32,
            pclk1_hz: self.pclk1_hz() as u32,
            pclk2_hz: self.pclk2_hz() as u32,
        }
    }

    /// Tells whether the plan is valid.
    pub fn check(&self) -> (ok: bool)
        ensures
            ok == self.is_valid(),
    {
        2 <= self.multiplier_factor && self.multiplier_factor <= 16 && 1 <= self.predivider
            && self.predivider <= 16 && encode_ahb(self.ahb_prescaler).is_some() && encode_apb(
            self.apb1_prescaler,
        ).is_some() && encode_apb(self.apb2_prescaler).is_some() && self.flash_wait_states <= 2
    }

    /// Computes the frequencies of the plan, if it is valid. None of them
    /// exceeds sixteen times the oscillator's.
    pub fn frequencies(&self, source: SystemClockSource) -> (clocks: Option<ActiveClocks>)
        ensures
            clocks is Some <==> self.is_valid(),
            clocks matches Some(c) ==> {
                &&& c == self.clocks(source)
                &&& c.sysclk_hz == self.sysclk_hz()
                &&& c.hclk_hz == self.hclk_hz()
                &&& c.pclk1_hz == self.pclk1_hz()
                &&& c.pclk2_hz == self.pclk2_hz()
                &&& c.pclk1_hz <= c.hclk_hz <= c.sysclk_hz <= 16 * HSI_HZ
                &&& c.pclk2_hz <= c.hclk_hz
            },
    {
        if !self.check() {
            return None;
        }
        let input: u32 = match self.oscillator_source {
            OscillatorSource::Hsi => HSI_HZ / (self.predivider as u32),
            OscillatorSource::HsiHalved => HSI_HZ / 2,
        };
        let factor: u32 = self.multiplier_factor as u32;
        let ahb: u32 = self.ahb_prescaler as u32;
        let apb1: u32 = self.apb1_prescaler as u32;
        let apb2: u32 = self.apb2_prescaler as u32;
        assert(input <= 8_000_000) by (nonlinear_arith)
            requires
                input == 8_000_000u32 / (self.predivider as u32) || input == 8_000_000u32 / 2,
                self.predivider >= 1,
        ;
        assert(input * factor <= 128_000_000) by (nonlinear_arith)
            requires
                input <= 8_000_000,
                factor <= 16,
        ;
        let sysclk: u32 = input * factor;
        let hclk: u32 = sysclk / ahb;
        let pclk1: u32 = hclk / apb1;
        let pclk2: u32 = hclk / apb2;
        assert(hclk <= sysclk) by (nonlinear_arith)
            requires
                hclk == sysclk / ahb,
                ahb >= 1,
        ;
        assert(pclk1 <= hclk) by (nonlinear_arith)
            requires
                pclk1 == hclk / apb1,
                apb1 >= 1,
        ;
        assert(pclk2 <= hclk) by (nonlinear_arith)
            requires
                pclk2 == hclk / apb2,
                apb2 >= 1,
        ;
        Some(
            ActiveClocks { source, sysclk_hz: sysclk, hclk_hz: hclk, pclk1_hz: pclk1, pclk2_hz: pclk2 },
        )
    }
}

/// What can drive the system clock.
#[derive(Clone, Copy, Debug, PartialEq, Eq, Structural)]
pub enum SystemClockSource {
    /// The internal oscillator, directly.
    Hsi,
    /// The external oscillator, directly.
    Hse,
    /// The output of the frequency multiplier.
    Pll,
}

/// The source that the sequencer asks the clock switch for.
pub open spec fn requested_source() -> SystemClockSource {
    SystemClockSource::Pll
}

/// The source that a two-bit code of the clock switch stands for.
pub open spec fn source_of(code: u32) -> Option<SystemClockSource> {
    if code == 0 {
        Some(SystemClockSource::Hsi)
    } else if code == 1 {
        Some(SystemClockSource::Hse)
    } else if code == 2 {
        Some(SystemClockSource::Pll)
    } else {
        None
    }
}

/// Decodes a two-bit code of the clock switch.
pub fn decode_source(code: u32) -> (source: Option<SystemClockSource>)
    ensures
        source == source_of(code),
{
    if code == 0 {
        Some(SystemClockSource::Hsi)
    } else if code == 1 {
        Some(SystemClockSource::Hse)
    } else if code == 2 {
        Some(SystemClockSource::Pll)
    } else {
        None
    }
}

/// The clocks that run after a bring-up that succeeded.
#[derive(Clone, Copy, Debug, PartialEq, Eq, Structural)]
pub struct ActiveClocks {
    /// The source that the clock switch reported as active.
    pub source: SystemClockSource,
    pub sysclk_hz: u32,
    pub hclk_hz: u32,
    pub pclk1_hz: u32,
    pub pclk2_hz: u32,
}

/// The conditions that the sequencer waits for.
#[derive(Clone, Copy, Debug, PartialEq, Eq, Structural)]
pub enum WaitPoint {
    /// The internal oscillator reports ready.
    OscillatorReady,
    /// The multiplier's ready flag has cleared after it was switched off.
    MultiplierStopped,
    /// The multiplier reports ready after it was switched on.
    MultiplierLocked,
    /// The clock switch shows the multiplier both as requested and as active.
    SwitchConfirmed,
}

/// Why a bring-up failed.
#[derive(Clone, Copy, Debug, PartialEq, Eq, Structural)]
pub enum ClockError {
    /// The condition did not hold within the spin budget.
    Timeout(WaitPoint),
}

/// The stages of the bring-up, in their order.
#[derive(Clone, Copy, Debug, PartialEq, Eq, Structural)]
pub enum ClockStage {
    EnableOscillator,
    AwaitOscillator,
    DisableMultiplier,
    AwaitMultiplierStopped,
    SelectMultiplierInput,
    ProgramPredivider,
    ProgramMultiplier,
    EnableMultiplier,
    AwaitMultiplierLocked,
    ProgramPrescalers,
    ProgramFlash,
    SelectSystemClock,
    AwaitSwitch,
    EnablePeripheralClocks,
    Complete,
    TimedOut(WaitPoint),
}

/// What the caller reports back after it has done what the sequencer asked.
#[derive(Clone, Copy, Debug, PartialEq, Eq, Structural)]
pub enum ClockEvent {
    /// The register update was performed.
    Written,
    /// The polled register held this word.
    Observed(u32),
}

/// What the sequencer asks for at its current stage.
#[derive(Clone, Copy, Debug, PartialEq, Eq, Structural)]
pub enum ClockAction {
    /// Perform this register update, then report `Written`.
    Update(RegisterWrite),
    /// Read this register, then report the word as `Observed`.
    Poll(Register),
    /// The bring-up is done and these clocks run.
    Finished(ActiveClocks),
    /// The bring-up failed for good.
    Failed(ClockError),
}

/// Where the sequencer stands.
#[derive(Clone, Copy, Debug, PartialEq, Eq, Structural)]
pub struct ClockState {
    pub stage: ClockStage,
    /// Polls that the current wait may still make; zero outside a wait.
    pub polls_left: u32,
    /// The source that drives the system clock as far as the sequencer has
    /// seen: the internal oscillator until the switch is confirmed.
    pub active_source: SystemClockSource,
}

/// Position of a stage in the order of the bring-up; both ends share the last.
pub open spec fn rank(stage: ClockStage) -> nat {
    match stage {
        ClockStage::EnableOscillator => 0,
        ClockStage::AwaitOscillator => 1,
        ClockStage::DisableMultiplier => 2,
        ClockStage::AwaitMultiplierStopped => 3,
        ClockStage::SelectMultiplierInput => 4,
        ClockStage::ProgramPredivider => 5,
        ClockStage::ProgramMultiplier => 6,
        ClockStage::EnableMultiplier => 7,
        ClockStage::AwaitMultiplierLocked => 8,
        ClockStage::ProgramPrescalers => 9,
        ClockStage::ProgramFlash => 10,
        ClockStage::SelectSystemClock => 11,
        ClockStage::AwaitSwitch => 12,
        ClockStage::EnablePeripheralClocks => 13,
        ClockStage::Complete => 14,
        ClockStage::TimedOut(_) => 14,
    }
}

/// The stage that follows when a stage is done. The two ends follow themselves.
pub open spec fn successor(stage: ClockStage) -> ClockStage {
    match stage {
        ClockStage::EnableOscillator => ClockStage::AwaitOscillator,
        ClockStage::AwaitOscillator => ClockStage::DisableMultiplier,
        ClockStage::DisableMultiplier => ClockStage::AwaitMultiplierStopped,
        ClockStage::AwaitMultiplierStopped => ClockStage::SelectMultiplierInput,
        ClockStage::SelectMultiplierInput => ClockStage::ProgramPredivider,
        ClockStage::ProgramPredivider => ClockStage::ProgramMultiplier,
        ClockStage::ProgramMultiplier => ClockStage::EnableMultiplier,
        ClockStage::EnableMultiplier => ClockStage::AwaitMultiplierLocked,
        ClockStage::AwaitMultiplierLocked => ClockStage::ProgramPrescalers,
        ClockStage::ProgramPrescalers => ClockStage::ProgramFlash,
        ClockStage::ProgramFlash => ClockStage::SelectSystemClock,
        ClockStage::SelectSystemClock => ClockStage::AwaitSwitch,
        ClockStage::AwaitSwitch => ClockStage::EnablePeripheralClocks,
        ClockStage::EnablePeripheralClocks => ClockStage::Complete,
        ClockStage::Complete => ClockStage::Complete,
        ClockStage::TimedOut(point) => ClockStage::TimedOut(point),
    }
}

/// The condition that a stage waits for, where it is a wait.
pub open spec fn wait_point(stage: ClockStage) -> Option<WaitPoint> {
    match stage {
        ClockStage::AwaitOscillator => Some(WaitPoint::OscillatorReady),
        ClockStage::AwaitMultiplierStopped => Some(WaitPoint::MultiplierStopped),
        ClockStage::AwaitMultiplierLocked => Some(WaitPoint::MultiplierLocked),
        ClockStage::AwaitSwitch => Some(WaitPoint::SwitchConfirmed),
        _ => None,
    }
}

/// Whether a stage is one of the two ends.
pub open spec fn is_terminal(stage: ClockStage) -> bool {
    stage is Complete || stage is TimedOut
}

/// The register whose word shows whether the condition holds.
pub open spec fn polled_register(point: WaitPoint) -> Register {
    match point {
        WaitPoint::SwitchConfirmed => Register::ClockConfig,
        _ => Register::ClockControl,
    }
}

/// Whether the condition holds in the word read from its register.
pub open spec fn satisfied(point: WaitPoint, word: u32) -> bool {
    match point {
        WaitPoint::OscillatorReady => field(word, 1, 1) == 1,
        WaitPoint::MultiplierStopped => field(word, 25, 1) == 0,
        WaitPoint::MultiplierLocked => field(word, 25, 1) == 1,
        WaitPoint::SwitchConfirmed => field(word, 0, 3) == 2 && field(word, 2, 3) == 2,
    }
}

/// The state in which a stage is entered. A wait that is entered with no
/// budget fails without a poll.
pub open spec fn enter(stage: ClockStage, budget: u32, active_source: SystemClockSource) -> ClockState {
    match wait_point(stage) {
        Some(point) => if budget == 0 {
            ClockState { stage: ClockStage::TimedOut(point), polls_left: 0, active_source }
        } else {
            ClockState { stage, polls_left: budget, active_source }
        },
        None => ClockState { stage, polls_left: 0, active_source },
    }
}

/// The state in which every bring-up starts.
pub open spec fn initial_state(budget: u32) -> ClockState {
    enter(ClockStage::EnableOscillator, budget, SystemClockSource::Hsi)
}

/// The source that is active after a wait was satisfied by `word`: the one
/// that the switch reports where the wait was for the switch, the one before
/// otherwise.
pub open spec fn source_after(point: WaitPoint, word: u32, before: SystemClockSource) -> SystemClockSource {
    if point == WaitPoint::SwitchConfirmed {
        match source_of(field(word, 2, 3)) {
            Some(source) => source,
            None => before,
        }
    } else {
        before
    }
}

/// The transition function of the sequencer.
///
/// A stage that updates a register is left on any event. A wait is left for
/// the next stage on a word that satisfies it; any other event costs one poll
/// of its budget, and the last poll that fails ends the bring-up in a timeout.
/// The two ends are never left.
pub open spec fn next_state(budget: u32, state: ClockState, event: ClockEvent) -> ClockState {
    if is_terminal(state.stage) {
        state
    } else {
        match wait_point(state.stage) {
            None => enter(successor(state.stage), budget, state.active_source),
            Some(point) => {
                if event matches ClockEvent::Observed(word) && satisfied(point, word) {
                    enter(
                        successor(state.stage),
                        budget,
                        source_after(point, event->Observed_0, state.active_source),
                    )
                } else if state.polls_left > 1 {
                    ClockState { polls_left: (state.polls_left - 1) as u32, ..state }
                } else {
                    ClockState { stage: ClockStage::TimedOut(point), polls_left: 0, ..state }
                }
            },
        }
    }
}

/// The state after a series of events, first to last.
pub open spec fn run(budget: u32, state: ClockState, events: Seq<ClockEvent>) -> ClockState
    decreases events.len(),
{
    if events.len() == 0 {
        state
    } else {
        next_state(budget, run(budget, state, events.drop_last()), events.last())
    }
}

/// The register update of a stage that updates a register.
pub open spec fn stage_write(plan: ClockPlan, stage: ClockStage) -> Option<RegisterWrite> {
    match stage {
        ClockStage::EnableOscillator => Some(
            RegisterWrite { register: Register::ClockControl, clear: 0x1, set: 0x1 },
        ),
        ClockStage::DisableMultiplier => Some(
            RegisterWrite { register: Register::ClockControl, clear: 0x0100_0000, set: 0 },
        ),
        ClockStage::SelectMultiplierInput => Some(
            RegisterWrite {
                register: Register::ClockConfig,
                clear: 0x0001_8000,
                set: match plan.oscillator_source {
                    OscillatorSource::Hsi => 0x8000,
                    OscillatorSource::HsiHalved => 0,
                },
            },
        ),
        ClockStage::ProgramPredivider => Some(
            RegisterWrite {
                register: Register::ClockConfig2,
                clear: 0xF,
                set: (plan.predivider - 1) as u32,
            },
        ),
        ClockStage::ProgramMultiplier => Some(
            RegisterWrite {
                register: Register::ClockConfig,
                clear: 0x003C_0000,
                set: ((plan.multiplier_factor - 2) as u32) << 18,
            },
        ),
        ClockStage::EnableMultiplier => Some(
            RegisterWrite { register: Register::ClockControl, clear: 0x0100_0000, set: 0x0100_0000 },
        ),
        ClockStage::ProgramPrescalers => Some(
            RegisterWrite {
                register: Register::ClockConfig,
                clear: 0x3FF0,
                set: (ahb_code(plan.ahb_prescaler).unwrap() << 4) | (apb_code(
                    plan.apb1_prescaler,
                ).unwrap() << 8) | (apb_code(plan.apb2_prescaler).unwrap() << 11),
            },
        ),
        ClockStage::ProgramFlash => Some(
            RegisterWrite {
                register: Register::FlashAccess,
                clear: 0x17,
                set: 0x10 | plan.flash_wait_states as u32,
            },
        ),
        ClockStage::SelectSystemClock => Some(
            RegisterWrite { register: Register::ClockConfig, clear: 0x3, set: 0x2 },
        ),
        ClockStage::EnablePeripheralClocks => Some(
            RegisterWrite { register: Register::BusClockEnable, clear: 0x00FF_0020, set: 0x00FF_0020 },
        ),
        _ => None,
    }
}

/// What the sequencer asks for in a state.
pub open spec fn action_of(plan: ClockPlan, state: ClockState) -> ClockAction {
    match state.stage {
        ClockStage::Complete => ClockAction::Finished(plan.clocks(state.active_source)),
        ClockStage::TimedOut(point) => ClockAction::Failed(ClockError::Timeout(point)),
        stage => match wait_point(stage) {
            Some(point) => ClockAction::Poll(polled_register(point)),
            None => ClockAction::Update(stage_write(plan, stage).unwrap()),
        },
    }
}

/// What holds of every state that a bring-up can be in: a wait has polls
/// left, within the budget, and once the switch is confirmed the active
/// source is the requested one.
pub open spec fn consistent(budget: u32, state: ClockState) -> bool {
    &&& wait_point(state.stage) is Some ==> 1 <= state.polls_left <= budget
    &&& wait_point(state.stage) is None ==> state.polls_left == 0
    &&& (state.stage is EnablePeripheralClocks || state.stage is Complete)
        ==> state.active_source == requested_source()
}

/// The most events that a bring-up with this budget can take to reach an end.
pub open spec fn step_bound(budget: u32) -> int {
    10 + 4 * budget
}

/// An upper bound on the events that can still pass before an end is reached.
pub open spec fn steps_left(budget: u32, state: ClockState) -> int {
    match state.stage {
        ClockStage::EnableOscillator => 10 + 4 * budget,
        ClockStage::AwaitOscillator => state.polls_left + 9 + 3 * budget,
        ClockStage::DisableMultiplier => 9 + 3 * budget,
        ClockStage::AwaitMultiplierStopped => state.polls_left + 8 + 2 * budget,
        ClockStage::SelectMultiplierInput => 8 + 2 * budget,
        ClockStage::ProgramPredivider => 7 + 2 * budget,
        ClockStage::ProgramMultiplier => 6 + 2 * budget,
        ClockStage::EnableMultiplier => 5 + 2 * budget,
        ClockStage::AwaitMultiplierLocked => state.polls_left + 4 + budget,
        ClockStage::ProgramPrescalers => 4 + budget,
        ClockStage::ProgramFlash => 3 + budget,
        ClockStage::SelectSystemClock => 2 + budget,
        ClockStage::AwaitSwitch => state.polls_left + 1,
        ClockStage::EnablePeripheralClocks => 1,
        ClockStage::Complete => 0,
        ClockStage::TimedOut(_) => 0,
    }
}

fn successor_of(stage: ClockStage) -> (next: ClockStage)
    ensures
        next == successor(stage),
{
    match stage {
        ClockStage::EnableOscillator => ClockStage::AwaitOscillator,
        ClockStage::AwaitOscillator => ClockStage::DisableMultiplier,
        ClockStage::DisableMultiplier => ClockStage::AwaitMultiplierStopped,
        ClockStage::AwaitMultiplierStopped => ClockStage::SelectMultiplierInput,
        ClockStage::SelectMultiplierInput => ClockStage::ProgramPredivider,
        ClockStage::ProgramPredivider => ClockStage::ProgramMultiplier,
        ClockStage::ProgramMultiplier => ClockStage::EnableMultiplier,
        ClockStage::EnableMultiplier => ClockStage::AwaitMultiplierLocked,
        ClockStage::AwaitMultiplierLocked => ClockStage::ProgramPrescalers,
        ClockStage::ProgramPrescalers => ClockStage::ProgramFlash,
        ClockStage::ProgramFlash => ClockStage::SelectSystemClock,
        ClockStage::SelectSystemClock => ClockStage::AwaitSwitch,
        ClockStage::AwaitSwitch => ClockStage::EnablePeripheralClocks,
        ClockStage::EnablePeripheralClocks => ClockStage::Complete,
        ClockStage::Complete => ClockStage::Complete,
        ClockStage::TimedOut(point) => ClockStage::TimedOut(point),
    }
}

fn wait_point_of(stage: ClockStage) -> (point: Option<WaitPoint>)
    ensures
        point == wait_point(stage),
{
    match stage {
        ClockStage::AwaitOscillator => Some(WaitPoint::OscillatorReady),
        ClockStage::AwaitMultiplierStopped => Some(WaitPoint::MultiplierStopped),
        ClockStage::AwaitMultiplierLocked => Some(WaitPoint::MultiplierLocked),
        ClockStage::AwaitSwitch => Some(WaitPoint::SwitchConfirmed),
        _ => None,
    }
}

fn is_satisfied(point: WaitPoint, word: u32) -> (holds: bool)
    ensures
        holds == satisfied(point, word),
{
    match point {
        WaitPoint::OscillatorReady => (word >> 1) & 1 == 1,
        WaitPoint::MultiplierStopped => (word >> 25) & 1 == 0,
        WaitPoint::MultiplierLocked => (word >> 25) & 1 == 1,
        WaitPoint::SwitchConfirmed => (word >> 0) & 3 == 2 && (word >> 2) & 3 == 2,
    }
}

fn enter_stage(stage: ClockStage, budget: u32, active_source: SystemClockSource) -> (state:
    ClockState)
    ensures
        state == enter(stage, budget, active_source),
{
    match wait_point_of(stage) {
        Some(point) => if budget == 0 {
            ClockState { stage: ClockStage::TimedOut(point), polls_left: 0, active_source }
        } else {
            ClockState { stage, polls_left: budget, active_source }
        },
        None => ClockState { stage, polls_left: 0, active_source },
    }
}

fn write_for(plan: &ClockPlan, stage: ClockStage) -> (write: Option<RegisterWrite>)
    requires
        plan.is_valid(),
    ensures
        write == stage_write(*plan, stage),
{
    match stage {
        ClockStage::EnableOscillator => Some(
            RegisterWrite { register: Register::ClockControl, clear: 0x1, set: 0x1 },
        ),
        ClockStage::DisableMultiplier => Some(
            RegisterWrite { register: Register::ClockControl, clear: 0x0100_0000, set: 0 },
        ),
        ClockStage::SelectMultiplierInput => Some(
            RegisterWrite {
                register: Register::ClockConfig,
                clear: 0x0001_8000,
                set: match plan.oscillator_source {
                    OscillatorSource::Hsi => 0x8000,
                    OscillatorSource::HsiHalved => 0,
                },
            },
        ),
        ClockStage::ProgramPredivider => Some(
            RegisterWrite {
                register: Register::ClockConfig2,
                clear: 0xF,
                set: (plan.predivider - 1) as u32,
            },
        ),
        ClockStage::ProgramMultiplier => Some(
            RegisterWrite {
                register: Register::ClockConfig,
                clear: 0x003C_0000,
                set: ((plan.multiplier_factor - 2) as u32) << 18,
            },
        ),
        ClockStage::EnableMultiplier => Some(
            RegisterWrite { register: Register::ClockControl, clear: 0x0100_0000, set: 0x0100_0000 },
        ),
        ClockStage::ProgramPrescalers => {
            let ahb: u32 = encode_ahb(plan.ahb_prescaler).unwrap();
            let apb1: u32 = encode_apb(plan.apb1_prescaler).unwrap();
            let apb2: u32 = encode_apb(plan.apb2_prescaler).unwrap();
            Some(
                RegisterWrite {
                    register: Register::ClockConfig,
                    clear: 0x3FF0,
                    set: (ahb << 4) | (apb1 << 8) | (apb2 << 11),
                },
            )
        },
        ClockStage::ProgramFlash => Some(
            RegisterWrite {
                register: Register::FlashAccess,
                clear: 0x17,
                set: 0x10 | plan.flash_wait_states as u32,
            },
        ),
        ClockStage::SelectSystemClock => Some(
            RegisterWrite { register: Register::ClockConfig, clear: 0x3, set: 0x2 },
        ),
        ClockStage::EnablePeripheralClocks => Some(
            RegisterWrite { register: Register::BusClockEnable, clear: 0x00FF_0020, set: 0x00FF_0020 },
        ),
        _ => None,
    }
}

/// A bring-up in progress: the plan, the spin budget of each wait, and the
/// state reached so far.
#[derive(Clone, Copy, Debug)]
pub struct ClockSequencer {
    plan: ClockPlan,
    budget: u32,
    state: ClockState,
}

impl ClockSequencer {
    #[verifier::type_invariant]
    spec fn well_formed(self) -> bool {
        self.plan.is_valid() && consistent(self.budget, self.state)
    }

    /// The plan that is being brought up.
    pub closed spec fn plan(self) -> ClockPlan {
        self.plan
    }

    /// The most polls that each wait may make.
    pub closed spec fn budget(self) -> u32 {
        self.budget
    }

    /// Where the bring-up stands.
    pub closed spec fn state(self) -> ClockState {
        self.state
    }

    /// The stage that the bring-up is at.
    pub fn stage(&self) -> (stage: ClockStage)
        ensures
            stage == self.state().stage,
    {
        self.state.stage
    }

    /// What to do now: the register update or the poll of the current stage,
    /// or the result once an end is reached. A result that reports running
    /// clocks reports the requested source as the active one.
    pub fn action(&self) -> (action: ClockAction)
        ensures
            action == action_of(self.plan(), self.state()),
            action matches ClockAction::Finished(clocks) ==> clocks.source == requested_source(),
    {
        proof {
            use_type_invariant(self);
        }
        match self.state.stage {
            ClockStage::Complete => ClockAction::Finished(
                self.plan.frequencies(self.state.active_source).unwrap(),
            ),
            ClockStage::TimedOut(point) => ClockAction::Failed(ClockError::Timeout(point)),
            stage => match wait_point_of(stage) {
                Some(point) => ClockAction::Poll(
                    match point {
                        WaitPoint::SwitchConfirmed => Register::ClockConfig,
                        _ => Register::ClockControl,
                    },
                ),
                None => ClockAction::Update(write_for(&self.plan, stage).unwrap()),
            },
        }
    }

    /// Takes the bring-up one event further, as [`next_state`] defines it.
    pub fn advance(self, event: ClockEvent) -> (next: ClockSequencer)
        ensures
            next.plan() == self.plan(),
            next.budget() == self.budget(),
            next.state() == next_state(self.budget(), self.state(), event),
    {
        proof {
            use_type_invariant(&self);
            lemma_step_consistent(self.budget, self.state, event);
        }
        let state: ClockState = self.state;
        let next: ClockState = match state.stage {
            ClockStage::Complete => state,
            ClockStage::TimedOut(_) => state,
            stage => match wait_point_of(stage) {
                None => enter_stage(successor_of(stage), self.budget, state.active_source),
                Some(point) => {
                    let word: Option<u32> = match event {
                        ClockEvent::Observed(word) => Some(word),
                        ClockEvent::Written => None,
                    };
                    if word.is_some() && is_satisfied(point, word.unwrap()) {
                        let seen: u32 = word.unwrap();
                        let active: SystemClockSource = match point {
                            WaitPoint::SwitchConfirmed => match decode_source((seen >> 2) & 3) {
                                Some(source) => source,
                                None => state.active_source,
                            },
                            _ => state.active_source,
                        };
                        enter_stage(successor_of(stage), self.budget, active)
                    } else if state.polls_left > 1 {
                        ClockState {
                            stage: state.stage,
                            polls_left: state.polls_left - 1,
                            active_source: state.active_source,
                        }
                    } else {
                        ClockState {
                            stage: ClockStage::TimedOut(point),
                            polls_left: 0,
                            active_source: state.active_source,
                        }
                    }
                },
            },
        };
        ClockSequencer { plan: self.plan, budget: self.budget, state: next }
    }
}

/// Starts the bring-up of a plan. Each wait may poll its register at most
/// `spin_budget` times. An invalid plan starts nothing.
pub fn bring_up(plan: ClockPlan, spin_budget: u32) -> (sequencer: Option<ClockSequencer>)
    ensures
        sequencer is Some <==> plan.is_valid(),
        sequencer matches Some(s) ==> s.plan() == plan && s.budget() == spin_budget && s.state()
            == initial_state(spin_budget),
{
    if plan.check() {
        let state: ClockState = enter_stage(
            ClockStage::EnableOscillator,
            spin_budget,
            SystemClockSource::Hsi,
        );
        Some(ClockSequencer { plan, budget: spin_budget, state })
    } else {
        None
    }
}

/// One event takes a consistent state to a consistent state.
pub proof fn lemma_step_consistent(budget: u32, state: ClockState, event: ClockEvent)
    requires
        consistent(budget, state),
    ensures
        consistent(budget, next_state(budget, state, event)),
{
}

/// Every state that a bring-up passes through is consistent.
pub proof fn lemma_run_consistent(budget: u32, events: Seq<ClockEvent>)
    ensures
        consistent(budget, run(budget, initial_state(budget), events)),
    decreases events.len(),
{
    if events.len() > 0 {
        lemma_run_consistent(budget, events.drop_last());
        lemma_step_consistent(
            budget,
            run(budget, initial_state(budget), events.drop_last()),
            events.last(),
        );
    }
}

/// The stages are passed in their order and none is skipped: an event leaves
/// the stage as it is, or takes it to its successor, or ends the bring-up in
/// the timeout of the wait that was reached.
pub proof fn lemma_stages_in_order(budget: u32, state: ClockState, event: ClockEvent)
    requires
        consistent(budget, state),
    ensures
        ({
            let next = next_state(budget, state, event);
            &&& rank(state.stage) <= rank(next.stage)
            &&& {
                ||| next.stage == state.stage
                ||| next.stage == successor(state.stage)
                ||| wait_point(state.stage) matches Some(point) && next.stage
                    == ClockStage::TimedOut(point)
                ||| wait_point(successor(state.stage)) matches Some(point) && budget == 0
                    && next.stage == ClockStage::TimedOut(point)
            }
        }),
{
}

/// A wait is left for the next stage only on a word that satisfies it.
pub proof fn lemma_wait_left_only_when_satisfied(budget: u32, state: ClockState, event: ClockEvent)
    requires
        consistent(budget, state),
        wait_point(state.stage) is Some,
        !is_terminal(next_state(budget, state, event).stage),
        next_state(budget, state, event).stage != state.stage,
    ensures
        event matches ClockEvent::Observed(word) && satisfied(wait_point(state.stage).unwrap(), word),
{
}

/// Every event before an end brings the end nearer.
pub proof fn lemma_step_progress(budget: u32, state: ClockState, event: ClockEvent)
    requires
        consistent(budget, state),
    ensures
        0 <= steps_left(budget, next_state(budget, state, event)),
        is_terminal(state.stage) <==> steps_left(budget, state) == 0,
        !is_terminal(state.stage) ==> steps_left(budget, next_state(budget, state, event))
            < steps_left(budget, state),
{
}

/// After `events`, at most `step_bound(budget) - events.len()` events remain
/// before an end.
proof fn lemma_run_progress(budget: u32, events: Seq<ClockEvent>)
    ensures
        0 <= steps_left(budget, run(budget, initial_state(budget), events)),
        steps_left(budget, run(budget, initial_state(budget), events)) + events.len()
            <= step_bound(budget) || is_terminal(
            run(budget, initial_state(budget), events).stage,
        ),
    decreases events.len(),
{
    if events.len() > 0 {
        let before = run(budget, initial_state(budget), events.drop_last());
        lemma_run_progress(budget, events.drop_last());
        lemma_run_consistent(budget, events.drop_last());
        lemma_step_progress(budget, before, events.last());
    }
}

/// A bring-up ends: after `step_bound(budget)` events, whatever they were, it
/// has either finished or timed out.
pub proof fn lemma_bring_up_ends(budget: u32, events: Seq<ClockEvent>)
    requires
        events.len() >= step_bound(budget),
    ensures
        is_terminal(run(budget, initial_state(budget), events).stage),
{
    lemma_run_progress(budget, events);
    lemma_run_consistent(budget, events);
    lemma_step_progress(budget, run(budget, initial_state(budget), events), ClockEvent::Written);
}

/// Whatever the hardware answers, a bring-up never reports clocks that run
/// from another source than the requested one: where it reports clocks, they
/// are those of the plan with the multiplier's output as the active source.
pub proof fn lemma_never_mismatched(plan: ClockPlan, budget: u32, events: Seq<ClockEvent>)
    requires
        plan.is_valid(),
    ensures
        ({
            let action = action_of(plan, run(budget, initial_state(budget), events));
            action matches ClockAction::Finished(clocks) ==> clocks.source == requested_source()
                && clocks == plan.clocks(SystemClockSource::Pll)
        }),
{
    lemma_run_consistent(budget, events);
}

/// Once enough events have passed, the result is there, and it is one of the
/// two: clocks that run from the requested source, or the timeout of a wait.
pub proof fn lemma_outcome(plan: ClockPlan, budget: u32, events: Seq<ClockEvent>)
    requires
        plan.is_valid(),
        events.len() >= step_bound(budget),
    ensures
        ({
            let action = action_of(plan, run(budget, initial_state(budget), events));
            ||| action == ClockAction::Finished(plan.clocks(requested_source()))
            ||| action matches ClockAction::Failed(ClockError::Timeout(_))
        }),
{
    lemma_bring_up_ends(budget, events);
    lemma_never_mismatched(plan, budget, events);
}

/// The updates of a bring-up, in the order in which they are asked for.
pub open spec fn planned_updates(plan: ClockPlan) -> Seq<RegisterWrite> {
    seq![
        stage_write(plan, ClockStage::EnableOscillator).unwrap(),
        stage_write(plan, ClockStage::DisableMultiplier).unwrap(),
        stage_write(plan, ClockStage::SelectMultiplierInput).unwrap(),
        stage_write(plan, ClockStage::ProgramPredivider).unwrap(),
        stage_write(plan, ClockStage::ProgramMultiplier).unwrap(),
        stage_write(plan, ClockStage::EnableMultiplier).unwrap(),
        stage_write(plan, ClockStage::ProgramPrescalers).unwrap(),
        stage_write(plan, ClockStage::ProgramFlash).unwrap(),
        stage_write(plan, ClockStage::SelectSystemClock).unwrap(),
        stage_write(plan, ClockStage::EnablePeripheralClocks).unwrap(),
    ]
}

/// The number of updates that were asked for by the time a stage is reached.
/// A timeout counts those before its wait.
pub open spec fn updates_before(stage: ClockStage) -> nat {
    match stage {
        ClockStage::EnableOscillator => 0,
        ClockStage::AwaitOscillator => 1,
        ClockStage::DisableMultiplier => 1,
        ClockStage::AwaitMultiplierStopped => 2,
        ClockStage::SelectMultiplierInput => 2,
        ClockStage::ProgramPredivider => 3,
        ClockStage::ProgramMultiplier => 4,
        ClockStage::EnableMultiplier => 5,
        ClockStage::AwaitMultiplierLocked => 6,
        ClockStage::ProgramPrescalers => 6,
        ClockStage::ProgramFlash => 7,
        ClockStage::SelectSystemClock => 8,
        ClockStage::AwaitSwitch => 9,
        ClockStage::EnablePeripheralClocks => 9,
        ClockStage::Complete => 10,
        ClockStage::TimedOut(WaitPoint::OscillatorReady) => 1,
        ClockStage::TimedOut(WaitPoint::MultiplierStopped) => 2,
        ClockStage::TimedOut(WaitPoint::MultiplierLocked) => 6,
        ClockStage::TimedOut(WaitPoint::SwitchConfirmed) => 9,
    }
}

/// The updates that the sequencer has asked for while it took the events,
/// in the order in which it asked.
pub open spec fn asked(plan: ClockPlan, budget: u32, events: Seq<ClockEvent>) -> Seq<RegisterWrite>
    decreases events.len(),
{
    if events.len() == 0 {
        Seq::empty()
    } else {
        let earlier = asked(plan, budget, events.drop_last());
        match action_of(plan, run(budget, initial_state(budget), events.drop_last())) {
            ClockAction::Update(write) => earlier.push(write),
            _ => earlier,
        }
    }
}

/// Whatever the hardware answers, the updates that a bring-up asks for are
/// the planned ones in their order, none left out and none repeated, as far
/// as the bring-up has come.
pub proof fn lemma_updates_in_order(plan: ClockPlan, budget: u32, events: Seq<ClockEvent>)
    ensures
        asked(plan, budget, events) == planned_updates(plan).take(
            updates_before(run(budget, initial_state(budget), events).stage) as int,
        ),
    decreases events.len(),
{
    let planned = planned_updates(plan);
    if events.len() == 0 {
        assert(planned.take(0) =~= Seq::<RegisterWrite>::empty());
    } else {
        let before = run(budget, initial_state(budget), events.drop_last());
        let after = run(budget, initial_state(budget), events);
        lemma_updates_in_order(plan, budget, events.drop_last());
        lemma_run_consistent(budget, events.drop_last());
        let done = updates_before(before.stage) as int;
        if wait_point(before.stage) is None && !is_terminal(before.stage) {
            assert(updates_before(after.stage) == done + 1);
            assert(planned[done] == stage_write(plan, before.stage).unwrap());
            assert(planned.take(done + 1) =~= planned.take(done).push(planned[done]));
        } else {
            assert(updates_before(after.stage) == done);
        }
    }
}

/// A bring-up that has finished has asked for every planned update, once and
/// in order.
pub proof fn lemma_finished_after_all_updates(plan: ClockPlan, budget: u32, events: Seq<ClockEvent>)
    requires
        run(budget, initial_state(budget), events).stage == ClockStage::Complete,
    ensures
        asked(plan, budget, events) == planned_updates(plan),
{
    lemma_updates_in_order(plan, budget, events);
    assert(planned_updates(plan).take(10) =~= planned_updates(plan));
}

/// What the planned updates of a valid plan leave in the registers, on
/// whatever they held before: every value of the plan in its field, both
/// oscillator and multiplier switched on, the multiplier requested as system
/// clock, prefetch on, and the clock gates of the pin banks and of the memory
/// controller open.
pub proof fn lemma_planned_updates_program_the_plan(plan: ClockPlan, file: RegisterFile)
    requires
        plan.is_valid(),
    ensures
        ({
            let after = perform_all(file, planned_updates(plan));
            let control = after[Register::ClockControl];
            let config = after[Register::ClockConfig];
            &&& field(control, 0, 1) == 1
            &&& field(control, 24, 1) == 1
            &&& field(config, 15, 3) == (if plan.oscillator_source == OscillatorSource::Hsi {
                1u32
            } else {
                0u32
            })
            &&& field(after[Register::ClockConfig2], 0, 0xF) == plan.predivider - 1
            &&& field(config, 18, 0xF) == plan.multiplier_factor - 2
            &&& field(config, 4, 0xF) == ahb_code(plan.ahb_prescaler).unwrap()
            &&& field(config, 8, 7) == apb_code(plan.apb1_prescaler).unwrap()
            &&& field(config, 11, 7) == apb_code(plan.apb2_prescaler).unwrap()
            &&& field(config, 0, 3) == 2
            &&& field(after[Register::FlashAccess], 0, 7) == plan.flash_wait_states
            &&& field(after[Register::FlashAccess], 4, 1) == 1
            &&& after[Register::BusClockEnable] & 0x00FF_0020 == 0x00FF_0020
        }),
{
    let w0 = stage_write(plan, ClockStage::EnableOscillator).unwrap();
    let w1 = stage_write(plan, ClockStage::DisableMultiplier).unwrap();
    let w2 = stage_write(plan, ClockStage::SelectMultiplierInput).unwrap();
    let w3 = stage_write(plan, ClockStage::ProgramPredivider).unwrap();
    let w4 = stage_write(plan, ClockStage::ProgramMultiplier).unwrap();
    let w5 = stage_write(plan, ClockStage::EnableMultiplier).unwrap();
    let w6 = stage_write(plan, ClockStage::ProgramPrescalers).unwrap();
    let w7 = stage_write(plan, ClockStage::ProgramFlash).unwrap();
    let w8 = stage_write(plan, ClockStage::SelectSystemClock).unwrap();
    let w9 = stage_write(plan, ClockStage::EnablePeripheralClocks).unwrap();
    let s0 = Seq::<RegisterWrite>::empty();
    let s1 = s0.push(w0);
    let s2 = s1.push(w1);
    let s3 = s2.push(w2);
    let s4 = s3.push(w3);
    let s5 = s4.push(w4);
    let s6 = s5.push(w5);
    let s7 = s6.push(w6);
    let s8 = s7.push(w7);
    let s9 = s8.push(w8);
    let s10 = s9.push(w9);
    assert(s10 =~= planned_updates(plan));
    lemma_perform_one_more(file, s0, w0);
    lemma_perform_one_more(file, s1, w1);
    lemma_perform_one_more(file, s2, w2);
    lemma_perform_one_more(file, s3, w3);
    lemma_perform_one_more(file, s4, w4);
    lemma_perform_one_more(file, s5, w5);
    lemma_perform_one_more(file, s6, w6);
    lemma_perform_one_more(file, s7, w7);
    lemma_perform_one_more(file, s8, w8);
    lemma_perform_one_more(file, s9, w9);
    let after = perform_all(file, s10);

    let c0 = file[Register::ClockControl];
    assert(after[Register::ClockControl] == w5.merged(w1.merged(w0.merged(c0))));
    assert(((((((c0 & !0x1u32) | 0x1) & !0x0100_0000u32) | 0) & !0x0100_0000u32) | 0x0100_0000)
        >> 0 & 1 == 1 && ((((((c0 & !0x1u32) | 0x1) & !0x0100_0000u32) | 0) & !0x0100_0000u32)
        | 0x0100_0000) >> 24 & 1 == 1) by (bit_vector);

    let g0 = file[Register::ClockConfig];
    let source: u32 = if plan.oscillator_source == OscillatorSource::Hsi {
        0x8000
    } else {
        0
    };
    let factor: u32 = (plan.multiplier_factor - 2) as u32;
    let ahb: u32 = ahb_code(plan.ahb_prescaler).unwrap();
    let apb1: u32 = apb_code(plan.apb1_prescaler).unwrap();
    let apb2: u32 = apb_code(plan.apb2_prescaler).unwrap();
    assert(after[Register::ClockConfig] == w8.merged(w6.merged(w4.merged(w2.merged(g0)))));
    assert((source == 0 || source == 0x8000) && factor <= 14 && ahb <= 15 && apb1 <= 7 && apb2
        <= 7 ==> ({
        let word = (((((((g0 & !0x0001_8000u32) | source) & !0x003C_0000u32) | (factor << 18))
            & !0x3FF0u32) | ((ahb << 4) | (apb1 << 8) | (apb2 << 11))) & !0x3u32) | 0x2;
        &&& (word >> 15) & 3 == source >> 15
        &&& (word >> 18) & 0xF == factor
        &&& (word >> 4) & 0xF == ahb
        &&& (word >> 8) & 7 == apb1
        &&& (word >> 11) & 7 == apb2
        &&& (word >> 0) & 3 == 2
    })) by (bit_vector);
    assert(0x8000u32 >> 15 == 1 && 0u32 >> 15 == 0) by (bit_vector);

    let p0 = file[Register::ClockConfig2];
    let divider: u32 = (plan.predivider - 1) as u32;
    assert(after[Register::ClockConfig2] == w3.merged(p0));
    assert(divider <= 15 ==> (((p0 & !0xFu32) | divider) >> 0) & 0xF == divider) by (bit_vector);

    let f0 = file[Register::FlashAccess];
    let waits: u32 = plan.flash_wait_states as u32;
    assert(after[Register::FlashAccess] == w7.merged(f0));
    assert(waits <= 2 ==> (((f0 & !0x17u32) | (0x10 | waits)) >> 0) & 7 == waits && (((f0
        & !0x17u32) | (0x10 | waits)) >> 4) & 1 == 1) by (bit_vector);

    let e0 = file[Register::BusClockEnable];
    assert(after[Register::BusClockEnable] == w9.merged(e0));
    assert(((e0 & !0x00FF_0020u32) | 0x00FF_0020) & 0x00FF_0020 == 0x00FF_0020) by (bit_vector);
}

} // verus!
