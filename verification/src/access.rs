//! The access sequencer: the window through which the external memory is
//! read and written once its bank is in force.
//!
//! A [`MappedWindow`] exists only for a bank that is live: enabled, and with
//! its configuration and timing read back from the controller as they were
//! committed. Its methods turn an offset into the bus transaction to perform,
//! or refuse an offset that leaves the window. The caller performs each
//! transaction as one volatile access, in the order given.

use vstd::prelude::*;
use vstd::arithmetic::power2::{lemma2_to64, lemma_pow2_pos, lemma_pow2_strictly_increases, pow2};
use vstd::bits::lemma_usize_shl_is_mul;
use crate::regs::{
    lemma_perform_one_more, perform_all, BankId, Register, RegisterFile, RegisterWrite,
};
use crate::timing::{commit_plan, lemma_control_fields, lemma_timing_fields, BankConfig, BankTiming, DataWidth};

verus! {

/// The width of one bus transaction.
#[derive(Clone, Copy, Debug, PartialEq, Eq, Structural)]
pub enum Width {
    /// 8 bits.
    Byte,
    /// 16 bits.
    Half,
    /// 32 bits.
    Word,
}

/// Why an access was refused.
#[derive(Clone, Copy, Debug, PartialEq, Eq, Structural)]
pub enum AccessError {
    /// The access would touch a byte outside the window.
    OutOfWindow,
}

/// One volatile access to the memory bus.
#[derive(Clone, Copy, Debug, PartialEq, Eq, Structural)]
pub enum BusTransaction {
    /// Load `width` from `address`.
    Read { address: usize, width: Width },
    /// Store the low `width` of `value` at `address`.
    Write { address: usize, width: Width, value: u32 },
}

/// The bytes of address space that each bank decodes.
pub const BANK_SPAN: usize = 0x0400_0000;

/// How far beyond the low byte the split helper places the high byte.
pub const HIGH_BYTE_OFFSET: usize = 2;

/// The number of bytes that a transaction of this width moves.
pub open spec fn width_bytes(width: Width) -> nat {
    match width {
        Width::Byte => 1,
        Width::Half => 2,
        Width::Word => 4,
    }
}

/// The bits of a word that a transaction of this width moves.
pub open spec fn width_mask(width: Width) -> u32 {
    match width {
        Width::Byte => 0xFF,
        Width::Half => 0xFFFF,
        Width::Word => 0xFFFF_FFFF,
    }
}

/// The address at which the window of a bank begins.
pub open spec fn bank_base(bank: BankId) -> usize {
    match bank {
        BankId::Bank1 => 0x6000_0000,
        BankId::Bank2 => 0x6400_0000,
        BankId::Bank3 => 0x6800_0000,
        BankId::Bank4 => 0x6C00_0000,
    }
}

/// The bytes behind each address of the memory: one on an 8-bit bus, two on a
/// 16-bit bus.
pub open spec fn bus_bytes(width: DataWidth) -> nat {
    match width {
        DataWidth::Bits8 => 1,
        DataWidth::Bits16 => 2,
    }
}

/// The most address lines that a bank decodes at this data width.
pub open spec fn decoded_lines(width: DataWidth) -> nat {
    match width {
        DataWidth::Bits8 => 26,
        DataWidth::Bits16 => 25,
    }
}

/// The size of the window in bytes: two to the number of address lines, times
/// the bytes behind each address. Lines beyond those that the bank decodes add
/// nothing.
pub open spec fn window_span(address_lines: nat, width: DataWidth) -> nat {
    let lines = if address_lines < decoded_lines(width) {
        address_lines
    } else {
        decoded_lines(width)
    };
    pow2(lines) * bus_bytes(width)
}

/// Whether the bank is live: enabled, of a kind that this crate drives, with
/// a timing that fits, and with both words read back as they were committed.
pub open spec fn live(bank: BankConfig, timing: BankTiming, control_word: u32, timing_word: u32) -> bool {
    &&& bank.enabled
    &&& !bank.multiplexed
    &&& timing.first_misfit() is None
    &&& bank.held_by(control_word)
    &&& timing.held_by(timing_word)
}

/// The memory behind the window as a mathematical map from address to byte.
pub type Memory = Map<usize, u8>;

/// The byte of `value` with this index, the lowest being byte 0.
pub open spec fn byte_of(value: u32, index: u32) -> u8 {
    ((value >> (8 * index)) & 0xFF) as u8
}

/// The memory after the low `width` of `value` was stored at `address`, low
/// byte at the lowest address.
pub open spec fn stored(memory: Memory, address: usize, width: Width, value: u32) -> Memory {
    match width {
        Width::Byte => memory.insert(address, byte_of(value, 0)),
        Width::Half => memory.insert(address, byte_of(value, 0)).insert(
            (address + 1) as usize,
            byte_of(value, 1),
        ),
        Width::Word => memory.insert(address, byte_of(value, 0)).insert(
            (address + 1) as usize,
            byte_of(value, 1),
        ).insert((address + 2) as usize, byte_of(value, 2)).insert(
            (address + 3) as usize,
            byte_of(value, 3),
        ),
    }
}

/// The value that a load of `width` from `address` gives.
pub open spec fn loaded(memory: Memory, address: usize, width: Width) -> u32 {
    match width {
        Width::Byte => memory[address] as u32,
        Width::Half => (memory[address] as u32) | ((memory[(address + 1) as usize] as u32) << 8),
        Width::Word => (memory[address] as u32) | ((memory[(address + 1) as usize] as u32) << 8) | ((
        memory[(address + 2) as usize] as u32) << 16) | ((memory[(address + 3) as usize] as u32)
            << 24),
    }
}

/// The memory after a transaction.
pub open spec fn after(memory: Memory, transaction: BusTransaction) -> Memory {
    match transaction {
        BusTransaction::Read { .. } => memory,
        BusTransaction::Write { address, width, value } => stored(memory, address, width, value),
    }
}

/// The value that a read transaction gives.
pub open spec fn answer(memory: Memory, transaction: BusTransaction) -> u32 {
    match transaction {
        BusTransaction::Read { address, width } => loaded(memory, address, width),
        BusTransaction::Write { .. } => 0,
    }
}

/// The 16-bit value whose low byte is `low` and whose high byte is `high`.
pub open spec fn joined(low: u8, high: u8) -> u16 {
    (low as u16) | ((high as u16) << 8)
}

/// The window of a live bank.
#[derive(Clone, Copy, Debug)]
pub struct MappedWindow {
    base: usize,
    span: usize,
}

impl MappedWindow {
    /// The address of the window's first byte.
    pub closed spec fn base(self) -> usize {
        self.base
    }

    /// The size of the window in bytes.
    pub closed spec fn span(self) -> usize {
        self.span
    }

    /// What holds of every window: it is not empty and lies within the
    /// address range of the four banks.
    #[verifier::type_invariant]
    pub open spec fn valid(self) -> bool {
        0x6000_0000 <= self.base() && 1 <= self.span() <= BANK_SPAN && self.base() + self.span()
            <= 0x7000_0000
    }

    /// Whether an access of `width` at `offset` stays within the window.
    pub open spec fn contains(self, width: Width, offset: usize) -> bool {
        offset + width_bytes(width) <= self.span()
    }

    /// What [`MappedWindow::read`] answers.
    pub open spec fn planned_read(self, width: Width, offset: usize) -> Result<BusTransaction, AccessError> {
        if self.contains(width, offset) {
            Ok(BusTransaction::Read { address: (self.base() + offset) as usize, width })
        } else {
            Err(AccessError::OutOfWindow)
        }
    }

    /// What [`MappedWindow::write`] answers.
    pub open spec fn planned_write(self, width: Width, offset: usize, value: u32) -> Result<
        BusTransaction,
        AccessError,
    > {
        if self.contains(width, offset) {
            Ok(
                BusTransaction::Write {
                    address: (self.base() + offset) as usize,
                    width,
                    value: value & width_mask(width),
                },
            )
        } else {
            Err(AccessError::OutOfWindow)
        }
    }

    /// Opens the window of a bank after its two updates were performed.
    ///
    /// `control_word` and `timing_word` are the bank's two registers as read
    /// back from the controller. The window is there if and only if the bank
    /// is live by them. It begins at the bank's base address and is as large
    /// as the address lines and the data width make it.
    pub fn open(
        bank: &BankConfig,
        timing: &BankTiming,
        address_lines: usize,
        control_word: u32,
        timing_word: u32,
    ) -> (window: Option<MappedWindow>)
        ensures
            window is Some <==> live(*bank, *timing, control_word, timing_word),
            window matches Some(w) ==> w.valid() && w.base() == bank_base(bank.bank_id) && w.span()
                == window_span(address_lines as nat, bank.data_width),
    {
        if !bank.enabled || bank.multiplexed || timing.check().is_some() || !bank.confirmed_by(
            control_word,
        ) || !timing.confirmed_by(timing_word) {
            return None;
        }
        let base: usize = match bank.bank_id {
            BankId::Bank1 => 0x6000_0000,
            BankId::Bank2 => 0x6400_0000,
            BankId::Bank3 => 0x6800_0000,
            BankId::Bank4 => 0x6C00_0000,
        };
        let (bytes, decoded): (usize, usize) = match bank.data_width {
            DataWidth::Bits8 => (1, 26),
            DataWidth::Bits16 => (2, 25),
        };
        let lines: usize = if address_lines < decoded {
            address_lines
        } else {
            decoded
        };
        proof {
            lemma2_to64();
            lemma_pow2_pos(lines as nat);
            if lines < decoded {
                lemma_pow2_strictly_increases(lines as nat, decoded as nat);
            }
            assert(pow2(lines as nat) * bytes <= 0x0400_0000) by (nonlinear_arith)
                requires
                    (bytes == 1 && pow2(lines as nat) <= 0x0400_0000) || (bytes == 2 && pow2(
                        lines as nat,
                    ) <= 0x0200_0000),
            ;
            assert(bytes * pow2(lines as nat) == pow2(lines as nat) * bytes) by (nonlinear_arith);
            assert(1 <= pow2(lines as nat) * bytes) by (nonlinear_arith)
                requires
                    bytes >= 1,
                    pow2(lines as nat) >= 1,
            ;
            lemma_usize_shl_is_mul(bytes, lines);
        }
        let span: usize = bytes << lines;
        Some(MappedWindow { base, span })
    }

    /// The address of the window's first byte.
    pub fn base_address(&self) -> (address: usize)
        ensures
            address == self.base(),
    {
        self.base
    }

    /// The size of the window in bytes.
    pub fn span_bytes(&self) -> (bytes: usize)
        ensures
            bytes == self.span(),
            1 <= bytes <= BANK_SPAN,
    {
        proof {
            use_type_invariant(self);
        }
        self.span
    }

    /// Whether an access of `width` at `offset` stays within the window.
    fn holds(&self, bytes: usize, offset: usize) -> (inside: bool)
        requires
            1 <= bytes <= 4,
        ensures
            inside == (offset + bytes <= self.span()),
            inside ==> self.base() + offset + bytes <= 0x7000_0000,
    {
        proof {
            use_type_invariant(self);
        }
        offset <= self.span && self.span - offset >= bytes
    }

    /// Plans the load of `width` at `offset` from the window's base. An
    /// access that leaves the window is refused; any other gives the read
    /// transaction at the address `base + offset`.
    pub fn read(&self, width: Width, offset: usize) -> (result: Result<BusTransaction, AccessError>)
        ensures
            result == self.planned_read(width, offset),
    {
        let bytes: usize = match width {
            Width::Byte => 1,
            Width::Half => 2,
            Width::Word => 4,
        };
        if self.holds(bytes, offset) {
            Ok(BusTransaction::Read { address: self.base + offset, width })
        } else {
            Err(AccessError::OutOfWindow)
        }
    }

    /// Plans the store of the low `width` of `value` at `offset` from the
    /// window's base. An access that leaves the window is refused; any other
    /// gives the write transaction at the address `base + offset`.
    pub fn write(&self, width: Width, offset: usize, value: u32) -> (result: Result<
        BusTransaction,
        AccessError,
    >)
        ensures
            result == self.planned_write(width, offset, value),
    {
        let (bytes, mask): (usize, u32) = match width {
            Width::Byte => (1, 0xFF),
            Width::Half => (2, 0xFFFF),
            Width::Word => (4, 0xFFFF_FFFF),
        };
        if self.holds(bytes, offset) {
            Ok(BusTransaction::Write { address: self.base + offset, width, value: value & mask })
        } else {
            Err(AccessError::OutOfWindow)
        }
    }

    /// What [`MappedWindow::write_split`] answers.
    pub open spec fn planned_split_write(self, offset: usize, value: u16) -> Result<
        (BusTransaction, BusTransaction),
        AccessError,
    > {
        if offset + HIGH_BYTE_OFFSET + 1 <= self.span() {
            Ok(
                (
                    BusTransaction::Write {
                        address: (self.base() + offset) as usize,
                        width: Width::Byte,
                        value: (value & 0xFF) as u32,
                    },
                    BusTransaction::Write {
                        address: (self.base() + offset + HIGH_BYTE_OFFSET) as usize,
                        width: Width::Byte,
                        value: (value >> 8) as u32,
                    },
                ),
            )
        } else {
            Err(AccessError::OutOfWindow)
        }
    }

    /// What [`MappedWindow::read_split`] answers.
    pub open spec fn planned_split_read(self, offset: usize) -> Result<
        (BusTransaction, BusTransaction),
        AccessError,
    > {
        if offset + HIGH_BYTE_OFFSET + 1 <= self.span() {
            Ok(
                (
                    BusTransaction::Read {
                        address: (self.base() + offset) as usize,
                        width: Width::Byte,
                    },
                    BusTransaction::Read {
                        address: (self.base() + offset + HIGH_BYTE_OFFSET) as usize,
                        width: Width::Byte,
                    },
                ),
            )
        } else {
            Err(AccessError::OutOfWindow)
        }
    }

    /// Plans the store of a 16-bit value as two byte transactions: the low
    /// byte at `offset`, then the high byte two bytes further on. The byte
    /// between them is not touched. The store is refused unless both bytes
    /// lie within the window.
    pub fn write_split(&self, offset: usize, value: u16) -> (result: Result<
        (BusTransaction, BusTransaction),
        AccessError,
    >)
        ensures
            result == self.planned_split_write(offset, value),
    {
        proof {
            use_type_invariant(self);
        }
        if offset <= self.span && self.span - offset >= HIGH_BYTE_OFFSET + 1 {
            let low: u32 = (value & 0xFF) as u32;
            let high: u32 = (value >> 8) as u32;
            Ok(
                (
                    BusTransaction::Write {
                        address: self.base + offset,
                        width: Width::Byte,
                        value: low,
                    },
                    BusTransaction::Write {
                        address: self.base + offset + HIGH_BYTE_OFFSET,
                        width: Width::Byte,
                        value: high,
                    },
                ),
            )
        } else {
            Err(AccessError::OutOfWindow)
        }
    }

    /// Plans the load of a 16-bit value as two byte transactions: the low
    /// byte from `offset`, then the high byte from two bytes further on.
    /// [`join_bytes`] makes the value of the two answers. The load is refused
    /// unless both bytes lie within the window.
    pub fn read_split(&self, offset: usize) -> (result: Result<
        (BusTransaction, BusTransaction),
        AccessError,
    >)
        ensures
            result == self.planned_split_read(offset),
    {
        proof {
            use_type_invariant(self);
        }
        if offset <= self.span && self.span - offset >= HIGH_BYTE_OFFSET + 1 {
            Ok(
                (
                    BusTransaction::Read { address: self.base + offset, width: Width::Byte },
                    BusTransaction::Read {
                        address: self.base + offset + HIGH_BYTE_OFFSET,
                        width: Width::Byte,
                    },
                ),
            )
        } else {
            Err(AccessError::OutOfWindow)
        }
    }
}

/// Makes the 16-bit value of the answers of the two reads of a split load.
pub fn join_bytes(low: u8, high: u8) -> (value: u16)
    ensures
        value == joined(low, high),
{
    (low as u16) | ((high as u16) << 8)
}

/// A store changes the bytes that it covers and no other.
pub proof fn lemma_store_is_local(memory: Memory, address: usize, width: Width, value: u32, other: usize)
    requires
        address + width_bytes(width) <= usize::MAX,
        other < address || other >= address + width_bytes(width),
    ensures
        stored(memory, address, width, value)[other] == memory[other],
        stored(memory, address, width, value).dom().contains(other) == memory.dom().contains(other),
{
}

/// What was written is what is read: after a store through the window, the
/// load of the same width at the same offset gives the value that was stored,
/// as far as the width holds it.
pub proof fn lemma_round_trip(window: MappedWindow, memory: Memory, width: Width, offset: usize, value: u32)
    requires
        window.valid(),
        window.contains(width, offset),
    ensures
        window.planned_write(width, offset, value) is Ok,
        window.planned_read(width, offset) is Ok,
        answer(
            after(memory, window.planned_write(width, offset, value).unwrap()),
            window.planned_read(width, offset).unwrap(),
        ) == value & width_mask(width),
{
    let v = value & width_mask(width);
    match width {
        Width::Byte => {
            assert(((((value & 0xFF) >> 0) & 0xFF) as u8) as u32 == value & 0xFF) by (bit_vector);
        },
        Width::Half => {
            assert((((((value & 0xFFFF) >> 0) & 0xFF) as u8) as u32) | ((((((value & 0xFFFF) >> 8)
                & 0xFF) as u8) as u32) << 8) == value & 0xFFFF) by (bit_vector);
        },
        Width::Word => {
            assert((((((value & 0xFFFF_FFFF) >> 0) & 0xFF) as u8) as u32) | ((((((value
                & 0xFFFF_FFFF) >> 8) & 0xFF) as u8) as u32) << 8) | ((((((value & 0xFFFF_FFFF)
                >> 16) & 0xFF) as u8) as u32) << 16) | ((((((value & 0xFFFF_FFFF) >> 24) & 0xFF)
                as u8) as u32) << 24) == value & 0xFFFF_FFFF) by (bit_vector);
        },
    }
}

/// A byte that is written at an offset within the window is the byte that is
/// read at that offset.
pub proof fn lemma_byte_round_trip(window: MappedWindow, memory: Memory, offset: usize, value: u8)
    requires
        window.valid(),
        offset < window.span(),
    ensures
        window.planned_write(Width::Byte, offset, value as u32) is Ok,
        window.planned_read(Width::Byte, offset) is Ok,
        answer(
            after(memory, window.planned_write(Width::Byte, offset, value as u32).unwrap()),
            window.planned_read(Width::Byte, offset).unwrap(),
        ) == value,
{
    lemma_round_trip(window, memory, Width::Byte, offset, value as u32);
    assert((value as u32) & 0xFF == value as u32) by (bit_vector);
}

/// A 16-bit value that is stored by the split helper is the value that the
/// split helper loads. Its low byte lies at the offset, its high byte two
/// bytes further on, and the byte between them holds what it held.
pub proof fn lemma_split_round_trip(window: MappedWindow, memory: Memory, offset: usize, value: u16)
    requires
        window.valid(),
        offset + HIGH_BYTE_OFFSET + 1 <= window.span(),
    ensures
        window.planned_split_write(offset, value) is Ok,
        window.planned_split_read(offset) is Ok,
        ({
            let writes = window.planned_split_write(offset, value).unwrap();
            let reads = window.planned_split_read(offset).unwrap();
            let written = after(after(memory, writes.0), writes.1);
            let first = (window.base() + offset) as usize;
            &&& written[first] == value & 0xFF
            &&& written[(first + 1) as usize] == memory[(first + 1) as usize]
            &&& written[(first + 2) as usize] == value >> 8
            &&& joined(answer(written, reads.0) as u8, answer(written, reads.1) as u8) == value
        }),
{
    assert((((((value & 0xFF) as u32) >> 0) & 0xFF) as u8) == value & 0xFF) by (bit_vector);
    assert((((((value >> 8) as u32) >> 0) & 0xFF) as u8) == value >> 8) by (bit_vector);
    assert(((((value & 0xFF) as u8) as u32) as u8) == (value & 0xFF) as u8) by (bit_vector);
    assert(((((value >> 8) as u8) as u32) as u8) == (value >> 8) as u8) by (bit_vector);
    assert((((value & 0xFF) as u8) as u16) | ((((value >> 8) as u8) as u16) << 8) == value)
        by (bit_vector);
}

/// Committing a bank makes it live: once the two updates that [`commit_plan`]
/// gives for an enabled bank are performed, on whatever the registers held,
/// the bank's two words read back as committed.
pub proof fn lemma_commit_makes_live(
    file: RegisterFile,
    bank: BankConfig,
    timing: BankTiming,
    data_lines: nat,
)
    requires
        bank.enabled,
        commit_plan(bank, timing, data_lines) is Ok,
    ensures
        ({
            let done = perform_all(file, commit_plan(bank, timing, data_lines).unwrap());
            live(
                bank,
                timing,
                done[Register::BankControl(bank.bank_id)],
                done[Register::BankTiming(bank.bank_id)],
            )
        }),
{
    let control = bank.control_write();
    let word = timing.timing_write(bank.bank_id);
    let none = Seq::<RegisterWrite>::empty();
    assert(none.push(control).push(word) =~= commit_plan(bank, timing, data_lines).unwrap());
    lemma_perform_one_more(file, none, control);
    lemma_perform_one_more(file, none.push(control), word);
    lemma_control_fields(bank, file[Register::BankControl(bank.bank_id)]);
    lemma_timing_fields(timing, bank.bank_id, file[Register::BankTiming(bank.bank_id)]);
}

} // verus!
