//! The vocabulary shared by all components: which register is meant, what an
//! update of it does to its bits, and how a field is read out of a word.

use vstd::prelude::*;

verus! {

/// A bank of sixteen general-purpose pins.
#[derive(Clone, Copy, Debug, PartialEq, Eq, Hash, Structural)]
pub enum PortId {
    A,
    B,
    C,
    D,
    E,
    F,
    G,
    H,
}

/// One of the four chip-select regions of the memory controller.
#[derive(Clone, Copy, Debug, PartialEq, Eq, Hash, Structural)]
pub enum BankId {
    Bank1,
    Bank2,
    Bank3,
    Bank4,
}

/// The 32-bit registers that the bring-up reads or updates.
#[derive(Clone, Copy, Debug, PartialEq, Eq, Hash, Structural)]
pub enum Register {
    /// Clock control: oscillator and multiplier switches with their ready flags.
    ClockControl,
    /// Clock configuration: system clock switch, bus prescalers, multiplier setup.
    ClockConfig,
    /// Second clock configuration word: the multiplier's predivider.
    ClockConfig2,
    /// Clock gates of the peripherals on the core bus.
    BusClockEnable,
    /// Flash access control: wait states and prefetch.
    FlashAccess,
    /// Pin mode, two bits per pin.
    PinMode(PortId),
    /// Alternate function of pins 0 to 7, four bits per pin.
    PinFunctionLow(PortId),
    /// Alternate function of pins 8 to 15, four bits per pin.
    PinFunctionHigh(PortId),
    /// Output drive speed, two bits per pin.
    PinSpeed(PortId),
    /// Control word of a memory bank.
    BankControl(BankId),
    /// Timing word of a memory bank.
    BankTiming(BankId),
}

/// The value of the field of `value` that is `mask` wide and starts at bit `shift`.
pub open spec fn field(value: u32, shift: u32, mask: u32) -> u32 {
    (value >> shift) & mask
}

/// A read-modify-write of one register: the bits of `clear` are reset, then
/// the bits of `set` are raised. Bits outside both keep what they held.
#[derive(Clone, Copy, Debug, PartialEq, Eq, Structural)]
pub struct RegisterWrite {
    pub register: Register,
    pub clear: u32,
    pub set: u32,
}

impl RegisterWrite {
    /// What the register holds after the update when it held `current` before.
    pub open spec fn merged(self, current: u32) -> u32 {
        (current & !self.clear) | self.set
    }

    /// Merges the update into the word that was read from the register and
    /// returns the word to write back.
    pub fn merge(&self, current: u32) -> (next: u32)
        ensures
            next == self.merged(current),
    {
        (current & !self.clear) | self.set
    }
}

/// The registers of the device as a mathematical map from register to word.
pub type RegisterFile = Map<Register, u32>;

/// The register file after one update was performed on it.
pub open spec fn perform(file: RegisterFile, write: RegisterWrite) -> RegisterFile {
    file.insert(write.register, write.merged(file[write.register]))
}

/// The register file after the updates were performed on it, first to last.
pub open spec fn perform_all(file: RegisterFile, writes: Seq<RegisterWrite>) -> RegisterFile
    decreases writes.len(),
{
    if writes.len() == 0 {
        file
    } else {
        perform(perform_all(file, writes.drop_last()), writes.last())
    }
}

/// Performing two series of updates one after the other is performing the
/// series that joins them.
pub proof fn lemma_perform_all_joined(
    file: RegisterFile,
    first: Seq<RegisterWrite>,
    second: Seq<RegisterWrite>,
)
    ensures
        perform_all(file, first + second) == perform_all(perform_all(file, first), second),
    decreases second.len(),
{
    if second.len() == 0 {
        assert(first + second =~= first);
    } else {
        lemma_perform_all_joined(file, first, second.drop_last());
        assert((first + second).drop_last() =~= first + second.drop_last());
        assert((first + second).last() == second.last());
    }
}

/// Performing a series and then one more update is performing the series
/// with the update at its end.
pub proof fn lemma_perform_one_more(file: RegisterFile, writes: Seq<RegisterWrite>, write: RegisterWrite)
    ensures
        perform_all(file, writes.push(write)) == perform(perform_all(file, writes), write),
{
    assert(writes.push(write).drop_last() =~= writes);
    assert(writes.push(write).last() == write);
}

/// A series of three updates performs them one by one.
pub proof fn lemma_perform_three(file: RegisterFile, a: RegisterWrite, b: RegisterWrite, c: RegisterWrite)
    ensures
        perform_all(file, seq![a, b, c]) == perform(perform(perform(file, a), b), c),
{
    let three = seq![a, b, c];
    let two = seq![a, b];
    let one = seq![a];
    assert(three.drop_last() =~= two);
    assert(two.drop_last() =~= one);
    assert(one.drop_last() =~= Seq::<RegisterWrite>::empty());
    assert(perform_all(file, one) == perform(perform_all(file, one.drop_last()), one.last()));
    assert(perform_all(file, two) == perform(perform_all(file, two.drop_last()), two.last()));
    assert(perform_all(file, three) == perform(
        perform_all(file, three.drop_last()),
        three.last(),
    ));
}

/// Storing a value in a two-bit field makes the field read back as the value
/// and leaves every other two-bit field of the word as it was.
pub proof fn lemma_pair_stored(word: u32, shift: u32, value: u32, other: u32)
    requires
        shift < 32,
        shift % 2 == 0,
        other < 32,
        other % 2 == 0,
        value <= 3,
    ensures
        field((word & !(3u32 << shift)) | (value << shift), shift, 3) == value,
        other != shift ==> field((word & !(3u32 << shift)) | (value << shift), other, 3) == field(
            word,
            other,
            3,
        ),
{
    assert(shift < 32 && shift % 2 == 0 && value <= 3 ==> (((word & !(3u32 << shift)) | (value
        << shift)) >> shift) & 3 == value) by (bit_vector);
    assert(shift < 32 && shift % 2 == 0 && other < 32 && other % 2 == 0 && other != shift && value
        <= 3 ==> (((word & !(3u32 << shift)) | (value << shift)) >> other) & 3 == (word >> other)
        & 3) by (bit_vector);
}

/// Storing a value in a four-bit field makes the field read back as the value
/// and leaves every other four-bit field of the word as it was.
pub proof fn lemma_nibble_stored(word: u32, shift: u32, value: u32, other: u32)
    requires
        shift < 32,
        shift % 4 == 0,
        other < 32,
        other % 4 == 0,
        value <= 15,
    ensures
        field((word & !(0xFu32 << shift)) | (value << shift), shift, 0xF) == value,
        other != shift ==> field((word & !(0xFu32 << shift)) | (value << shift), other, 0xF)
            == field(word, other, 0xF),
{
    assert(shift < 32 && shift % 4 == 0 && value <= 15 ==> (((word & !(0xFu32 << shift)) | (value
        << shift)) >> shift) & 0xF == value) by (bit_vector);
    assert(shift < 32 && shift % 4 == 0 && other < 32 && other % 4 == 0 && other != shift && value
        <= 15 ==> (((word & !(0xFu32 << shift)) | (value << shift)) >> other) & 0xF == (word
        >> other) & 0xF) by (bit_vector);
}

} // verus!
