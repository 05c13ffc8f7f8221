//! The timing engine of the memory controller: a bank's control word (enable,
//! memory class, data width, feature flags) and its timing word (setup, hold
//! and turnaround cycles of the asynchronous protocol).
//!
//! [`commit`] checks the configuration against the wiring and the timing
//! against the width of each field, and only then plans the two updates: the
//! control word first, the timing word second.

use vstd::prelude::*;
use crate::regs::{field, BankId, Register, RegisterWrite};

verus! {

/// The kind of memory on a bank.
#[derive(Clone, Copy, Debug, PartialEq, Eq, Structural)]
pub enum MemoryClass {
    Sram,
    Psram,
    Nor,
}

/// The width of the data bus of a bank.
#[derive(Clone, Copy, Debug, PartialEq, Eq, Structural)]
pub enum DataWidth {
    Bits8,
    Bits16,
}

/// The access mode of the asynchronous protocol.
#[derive(Clone, Copy, Debug, PartialEq, Eq, Structural)]
pub enum AccessMode {
    A,
    B,
    C,
    D,
}

/// The configuration of one bank.
#[derive(Clone, Copy, Debug, PartialEq, Eq, Structural)]
pub struct BankConfig {
    pub bank_id: BankId,
    pub enabled: bool,
    pub memory_class: MemoryClass,
    pub data_width: DataWidth,
    pub burst_enabled: bool,
    pub wrap_enabled: bool,
    /// Address and data on shared lines. The wiring that this crate drives
    /// keeps them apart, so a configuration that sets this is refused.
    pub multiplexed: bool,
    pub extended_mode: bool,
    pub async_wait_enabled: bool,
}

/// The timing of one bank, in cycles of the core bus clock.
#[derive(Clone, Copy, Debug, PartialEq, Eq, Structural)]
pub struct BankTiming {
    pub address_setup_cycles: u32,
    pub address_hold_cycles: u32,
    pub data_setup_cycles: u32,
    pub bus_turnaround_cycles: u32,
    pub clock_division: u32,
    pub data_latency_cycles: u32,
    pub access_mode: AccessMode,
}

/// The numeric fields of the timing word, in the order in which they are checked.
#[derive(Clone, Copy, Debug, PartialEq, Eq, Structural)]
pub enum TimingField {
    AddressSetup,
    AddressHold,
    DataSetup,
    BusTurnaround,
    ClockDivision,
    DataLatency,
}

/// Why a configuration was refused.
#[derive(Clone, Copy, Debug, PartialEq, Eq, Structural)]
pub enum TimingError {
    /// The bank is configured as multiplexed, or its data width is not the
    /// number of data lines that are wired.
    UnsupportedConfig,
    /// The value of this field does not fit the field.
    OutOfRange(TimingField),
}

/// The bits of the control word that a bank configuration owns.
pub const CONTROL_MASK: u32 = 0xC53F;

/// The bits of the timing word that a bank timing owns.
pub const TIMING_MASK: u32 = 0x3FFF_FFFF;

/// The number of data lines that a data width needs.
pub open spec fn width_lines(width: DataWidth) -> nat {
    match width {
        DataWidth::Bits8 => 8,
        DataWidth::Bits16 => 16,
    }
}

/// The code of a memory class in its field.
pub open spec fn class_code(class: MemoryClass) -> u32 {
    match class {
        MemoryClass::Sram => 0,
        MemoryClass::Psram => 1,
        MemoryClass::Nor => 2,
    }
}

/// The code of a data width in its field.
pub open spec fn width_code(width: DataWidth) -> u32 {
    match width {
        DataWidth::Bits8 => 0,
        DataWidth::Bits16 => 1,
    }
}

/// The code of an access mode in its field.
pub open spec fn mode_code(mode: AccessMode) -> u32 {
    match mode {
        AccessMode::A => 0,
        AccessMode::B => 1,
        AccessMode::C => 2,
        AccessMode::D => 3,
    }
}

/// The bits of `mask` if the flag is set, none otherwise.
pub open spec fn flag(set: bool, mask: u32) -> u32 {
    if set {
        mask
    } else {
        0
    }
}

/// The largest value that a timing field holds.
pub open spec fn field_limit(which: TimingField) -> u32 {
    match which {
        TimingField::DataSetup => 255,
        _ => 15,
    }
}

impl BankConfig {
    /// Whether the configuration fits wiring with this many data lines: not
    /// multiplexed, and as wide as the lines that are wired.
    pub open spec fn supported(self, data_lines: nat) -> bool {
        !self.multiplexed && width_lines(self.data_width) == data_lines
    }

    /// The control word's bits for this configuration.
    pub open spec fn control_bits(self) -> u32 {
        flag(self.enabled, 0x1) | flag(self.multiplexed, 0x2) | (class_code(self.memory_class) << 2)
            | (width_code(self.data_width) << 4) | flag(self.burst_enabled, 0x100) | flag(
            self.wrap_enabled,
            0x400,
        ) | flag(self.extended_mode, 0x4000) | flag(self.async_wait_enabled, 0x8000)
    }

    /// The update that stores this configuration in the bank's control word.
    pub open spec fn control_write(self) -> RegisterWrite {
        RegisterWrite {
            register: Register::BankControl(self.bank_id),
            clear: CONTROL_MASK,
            set: self.control_bits(),
        }
    }

    /// Whether a control word holds this configuration in the bits that a
    /// configuration owns.
    pub open spec fn held_by(self, word: u32) -> bool {
        word & CONTROL_MASK == self.control_bits()
    }

    /// Tells whether a control word, read back from the bank's register,
    /// holds this configuration.
    pub fn confirmed_by(&self, word: u32) -> (held: bool)
        ensures
            held == self.held_by(word),
    {
        word & CONTROL_MASK == control_bits_of(self)
    }
}

impl BankTiming {
    /// The value of a numeric field.
    pub open spec fn value(self, which: TimingField) -> u32 {
        match which {
            TimingField::AddressSetup => self.address_setup_cycles,
            TimingField::AddressHold => self.address_hold_cycles,
            TimingField::DataSetup => self.data_setup_cycles,
            TimingField::BusTurnaround => self.bus_turnaround_cycles,
            TimingField::ClockDivision => self.clock_division,
            TimingField::DataLatency => self.data_latency_cycles,
        }
    }

    /// Whether the value of a field fits the field.
    pub open spec fn fits(self, which: TimingField) -> bool {
        self.value(which) <= field_limit(which)
    }

    /// The first field, in the order of `TimingField`, whose value does not fit.
    pub open spec fn first_misfit(self) -> Option<TimingField> {
        if !self.fits(TimingField::AddressSetup) {
            Some(TimingField::AddressSetup)
        } else if !self.fits(TimingField::AddressHold) {
            Some(TimingField::AddressHold)
        } else if !self.fits(TimingField::DataSetup) {
            Some(TimingField::DataSetup)
        } else if !self.fits(TimingField::BusTurnaround) {
            Some(TimingField::BusTurnaround)
        } else if !self.fits(TimingField::ClockDivision) {
            Some(TimingField::ClockDivision)
        } else if !self.fits(TimingField::DataLatency) {
            Some(TimingField::DataLatency)
        } else {
            None
        }
    }

    /// The timing word's bits for this timing.
    pub open spec fn timing_bits(self) -> u32 {
        self.address_setup_cycles | (self.address_hold_cycles << 4) | (self.data_setup_cycles << 8)
            | (self.bus_turnaround_cycles << 16) | (self.clock_division << 20) | (
        self.data_latency_cycles << 24) | (mode_code(self.access_mode) << 28)
    }

    /// The update that stores this timing in the timing word of a bank.
    pub open spec fn timing_write(self, bank: BankId) -> RegisterWrite {
        RegisterWrite { register: Register::BankTiming(bank), clear: TIMING_MASK, set: self.timing_bits() }
    }

    /// Whether a timing word holds this timing in the bits that a timing owns.
    pub open spec fn held_by(self, word: u32) -> bool {
        word & TIMING_MASK == self.timing_bits()
    }

    /// Tells whether a timing word, read back from the bank's register, holds
    /// this timing.
    pub fn confirmed_by(&self, word: u32) -> (held: bool)
        ensures
            held == self.held_by(word),
    {
        word & TIMING_MASK == timing_bits_of(self)
    }

    /// Finds the first field whose value does not fit.
    pub fn check(&self) -> (misfit: Option<TimingField>)
        ensures
            misfit == self.first_misfit(),
    {
        if self.address_setup_cycles > 15 {
            Some(TimingField::AddressSetup)
        } else if self.address_hold_cycles > 15 {
            Some(TimingField::AddressHold)
        } else if self.data_setup_cycles > 255 {
            Some(TimingField::DataSetup)
        } else if self.bus_turnaround_cycles > 15 {
            Some(TimingField::BusTurnaround)
        } else if self.clock_division > 15 {
            Some(TimingField::ClockDivision)
        } else if self.data_latency_cycles > 15 {
            Some(TimingField::DataLatency)
        } else {
            None
        }
    }
}

fn flag_bits(set: bool, mask: u32) -> (bits: u32)
    ensures
        bits == flag(set, mask),
{
    if set {
        mask
    } else {
        0
    }
}

fn control_bits_of(bank: &BankConfig) -> (bits: u32)
    ensures
        bits == bank.control_bits(),
{
    let class: u32 = match bank.memory_class {
        MemoryClass::Sram => 0,
        MemoryClass::Psram => 1,
        MemoryClass::Nor => 2,
    };
    let width: u32 = match bank.data_width {
        DataWidth::Bits8 => 0,
        DataWidth::Bits16 => 1,
    };
    flag_bits(bank.enabled, 0x1) | flag_bits(bank.multiplexed, 0x2) | (class << 2) | (width << 4)
        | flag_bits(bank.burst_enabled, 0x100) | flag_bits(bank.wrap_enabled, 0x400) | flag_bits(
        bank.extended_mode,
        0x4000,
    ) | flag_bits(bank.async_wait_enabled, 0x8000)
}

fn timing_bits_of(timing: &BankTiming) -> (bits: u32)
    ensures
        bits == timing.timing_bits(),
{
    let mode: u32 = match timing.access_mode {
        AccessMode::A => 0,
        AccessMode::B => 1,
        AccessMode::C => 2,
        AccessMode::D => 3,
    };
    timing.address_setup_cycles | (timing.address_hold_cycles << 4) | (timing.data_setup_cycles
        << 8) | (timing.bus_turnaround_cycles << 16) | (timing.clock_division << 20) | (
    timing.data_latency_cycles << 24) | (mode << 28)
}

/// What [`commit`] answers: the refusal, or the two updates in their order.
pub open spec fn commit_plan(bank: BankConfig, timing: BankTiming, data_lines: nat) -> Result<
    Seq<RegisterWrite>,
    TimingError,
> {
    if !bank.supported(data_lines) {
        Err(TimingError::UnsupportedConfig)
    } else {
        match timing.first_misfit() {
            Some(which) => Err(TimingError::OutOfRange(which)),
            None => Ok(seq![bank.control_write(), timing.timing_write(bank.bank_id)]),
        }
    }
}

/// Checks a bank's configuration and timing and plans the two updates that
/// put them in force.
///
/// `data_lines` is the number of data lines that the pin bindings wire. A
/// configuration that is multiplexed, or whose data width is not that number
/// of lines, is refused as unsupported, whatever the timing is. Otherwise the
/// first timing field whose value does not fit is reported. Otherwise the
/// answer is the update of the control word followed by the update of the
/// timing word.
pub fn commit(bank: &BankConfig, timing: &BankTiming, data_lines: usize) -> (result: Result<
    Vec<RegisterWrite>,
    TimingError,
>)
    ensures
        match result {
            Ok(writes) => commit_plan(*bank, *timing, data_lines as nat) == Ok::<
                Seq<RegisterWrite>,
                TimingError,
            >(writes@),
            Err(error) => commit_plan(*bank, *timing, data_lines as nat) == Err::<
                Seq<RegisterWrite>,
                TimingError,
            >(error),
        },
{
    let wired: usize = match bank.data_width {
        DataWidth::Bits8 => 8,
        DataWidth::Bits16 => 16,
    };
    if bank.multiplexed || wired != data_lines {
        return Err(TimingError::UnsupportedConfig);
    }
    match timing.check() {
        Some(which) => Err(TimingError::OutOfRange(which)),
        None => {
            let mut writes: Vec<RegisterWrite> = Vec::new();
            writes.push(
                RegisterWrite {
                    register: Register::BankControl(bank.bank_id),
                    clear: CONTROL_MASK,
                    set: control_bits_of(bank),
                },
            );
            writes.push(
                RegisterWrite {
                    register: Register::BankTiming(bank.bank_id),
                    clear: TIMING_MASK,
                    set: timing_bits_of(timing),
                },
            );
            assert(writes@ =~= seq![bank.control_write(), timing.timing_write(bank.bank_id)]);
            Ok(writes)
        },
    }
}

/// A sixteen-bit bank on eight data lines is refused as unsupported, whatever
/// the rest of the configuration and the timing are.
pub proof fn lemma_wide_bank_on_narrow_wiring(bank: BankConfig, timing: BankTiming)
    requires
        bank.data_width == DataWidth::Bits16,
    ensures
        commit_plan(bank, timing, 8) == Err::<Seq<RegisterWrite>, TimingError>(
            TimingError::UnsupportedConfig,
        ),
{
}

/// After the control update, on whatever the word held before, each field of
/// the control word reads back as the configuration has it, and the word
/// holds the configuration.
pub proof fn lemma_control_fields(bank: BankConfig, before: u32)
    ensures
        ({
            let word = bank.control_write().merged(before);
            &&& field(word, 0, 1) == flag(bank.enabled, 1)
            &&& field(word, 1, 1) == flag(bank.multiplexed, 1)
            &&& field(word, 2, 3) == class_code(bank.memory_class)
            &&& field(word, 4, 3) == width_code(bank.data_width)
            &&& field(word, 8, 1) == flag(bank.burst_enabled, 1)
            &&& field(word, 10, 1) == flag(bank.wrap_enabled, 1)
            &&& field(word, 14, 1) == flag(bank.extended_mode, 1)
            &&& field(word, 15, 1) == flag(bank.async_wait_enabled, 1)
            &&& word & !CONTROL_MASK == before & !CONTROL_MASK
            &&& bank.held_by(word)
        }),
{
    let e = flag(bank.enabled, 0x1);
    let m = flag(bank.multiplexed, 0x2);
    let c = class_code(bank.memory_class);
    let w = width_code(bank.data_width);
    let b = flag(bank.burst_enabled, 0x100);
    let r = flag(bank.wrap_enabled, 0x400);
    let x = flag(bank.extended_mode, 0x4000);
    let a = flag(bank.async_wait_enabled, 0x8000);
    assert((e == 0 || e == 1) && (m == 0 || m == 2) && c <= 2 && w <= 1 && (b == 0 || b == 0x100)
        && (r == 0 || r == 0x400) && (x == 0 || x == 0x4000) && (a == 0 || a == 0x8000) ==> ({
        let bits = e | m | (c << 2) | (w << 4) | b | r | x | a;
        let word = (before & !0xC53Fu32) | bits;
        &&& (word >> 0) & 1 == e
        &&& (word >> 1) & 1 == m >> 1
        &&& (word >> 2) & 3 == c
        &&& (word >> 4) & 3 == w
        &&& (word >> 8) & 1 == b >> 8
        &&& (word >> 10) & 1 == r >> 10
        &&& (word >> 14) & 1 == x >> 14
        &&& (word >> 15) & 1 == a >> 15
        &&& word & !0xC53Fu32 == before & !0xC53Fu32
        &&& word & 0xC53Fu32 == bits
    })) by (bit_vector);
    assert(2u32 >> 1 == 1 && 0x100u32 >> 8 == 1 && 0x400u32 >> 10 == 1 && 0x4000u32 >> 14 == 1
        && 0x8000u32 >> 15 == 1 && 0u32 >> 1 == 0 && 0u32 >> 8 == 0 && 0u32 >> 10 == 0 && 0u32
        >> 14 == 0 && 0u32 >> 15 == 0) by (bit_vector);
}

/// After the timing update of a timing whose values fit, on whatever the word
/// held before, each field of the timing word reads back as the timing has it.
pub proof fn lemma_timing_fields(timing: BankTiming, bank: BankId, before: u32)
    requires
        timing.first_misfit() is None,
    ensures
        ({
            let word = timing.timing_write(bank).merged(before);
            &&& field(word, 0, 0xF) == timing.address_setup_cycles
            &&& field(word, 4, 0xF) == timing.address_hold_cycles
            &&& field(word, 8, 0xFF) == timing.data_setup_cycles
            &&& field(word, 16, 0xF) == timing.bus_turnaround_cycles
            &&& field(word, 20, 0xF) == timing.clock_division
            &&& field(word, 24, 0xF) == timing.data_latency_cycles
            &&& field(word, 28, 3) == mode_code(timing.access_mode)
            &&& word & !TIMING_MASK == before & !TIMING_MASK
            &&& timing.held_by(word)
        }),
{
    let s = timing.address_setup_cycles;
    let h = timing.address_hold_cycles;
    let d = timing.data_setup_cycles;
    let t = timing.bus_turnaround_cycles;
    let c = timing.clock_division;
    let l = timing.data_latency_cycles;
    let m = mode_code(timing.access_mode);
    assert(s <= 15 && h <= 15 && d <= 255 && t <= 15 && c <= 15 && l <= 15 && m <= 3 ==> ({
        let bits = s | (h << 4) | (d << 8) | (t << 16) | (c << 20) | (l << 24) | (m << 28);
        let word = (before & !0x3FFF_FFFFu32) | bits;
        &&& (word >> 0) & 0xF == s
        &&& (word >> 4) & 0xF == h
        &&& (word >> 8) & 0xFF == d
        &&& (word >> 16) & 0xF == t
        &&& (word >> 20) & 0xF == c
        &&& (word >> 24) & 0xF == l
        &&& (word >> 28) & 3 == m
        &&& word & !0x3FFF_FFFFu32 == before & !0x3FFF_FFFFu32
        &&& word & 0x3FFF_FFFFu32 == bits
    })) by (bit_vector);
}

} // verus!
