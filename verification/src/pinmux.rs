//! The bus pin configurator: every signal of the external memory is routed
//! to one pin, which is put into its alternate-function mode, given the
//! function's number and a drive speed.
//!
//! [`apply`] checks a set of bindings as a whole and only then plans the
//! register updates, three for each pin. A set that is refused plans none.

use vstd::prelude::*;
use crate::regs::{
    field, lemma_nibble_stored, lemma_pair_stored, lemma_perform_all_joined, lemma_perform_three,
    perform_all, PortId, Register, RegisterFile, RegisterWrite,
};

verus! {

/// The signal of the memory bus that a pin carries.
#[derive(Clone, Copy, Debug, PartialEq, Eq, Structural)]
pub enum SignalRole {
    /// Address line of this number.
    Address(u8),
    /// Data line of this number.
    Data(u8),
    OutputEnable,
    WriteEnable,
    ChipSelect,
}

/// How fast a pin's output may switch.
#[derive(Clone, Copy, Debug, PartialEq, Eq, Structural)]
pub enum DriveSpeed {
    Low,
    Medium,
    High,
    VeryHigh,
}

/// One signal on one pin.
#[derive(Clone, Copy, Debug, PartialEq, Eq, Structural)]
pub struct PinMuxBinding {
    pub port_id: PortId,
    /// Number of the pin within its bank, 0 to 15.
    pub pin_index: u8,
    pub signal_role: SignalRole,
    /// Number of the alternate function, 0 to 15.
    pub alternate_function_id: u8,
    pub drive_speed: DriveSpeed,
}

/// Why a set of bindings was refused.
#[derive(Clone, Copy, Debug, PartialEq, Eq, Structural)]
pub enum PinMuxError {
    /// Two bindings name the same pin of the same bank.
    ConflictingBinding,
    /// A binding asks for a function that its pin does not have: the pin or
    /// the function has no place in the registers.
    UnsupportedAlternateFunction,
}

/// The code of the alternate-function mode in a pin's mode field.
pub const MODE_ALTERNATE: u32 = 2;

/// Whether two bindings name the same pin.
pub open spec fn same_pin(a: PinMuxBinding, b: PinMuxBinding) -> bool {
    a.port_id == b.port_id && a.pin_index == b.pin_index
}

/// Whether some pin is bound twice.
pub open spec fn has_conflict(bindings: Seq<PinMuxBinding>) -> bool {
    exists|i: int, j: int|
        0 <= i < j < bindings.len() && same_pin(#[trigger] bindings[i], #[trigger] bindings[j])
}

/// Whether the pin exists and the function's number fits its field.
pub open spec fn supported(binding: PinMuxBinding) -> bool {
    binding.pin_index < 16 && binding.alternate_function_id < 16
}

/// Whether every binding is supported.
pub open spec fn all_supported(bindings: Seq<PinMuxBinding>) -> bool {
    forall|i: int| 0 <= i < bindings.len() ==> supported(#[trigger] bindings[i])
}

/// The code of a drive speed in a pin's speed field.
pub open spec fn speed_code(speed: DriveSpeed) -> u32 {
    match speed {
        DriveSpeed::Low => 0,
        DriveSpeed::Medium => 1,
        DriveSpeed::High => 2,
        DriveSpeed::VeryHigh => 3,
    }
}

/// Bit at which the two-bit field of a pin starts in the mode and speed registers.
pub open spec fn pair_shift(pin: u8) -> u32 {
    (2 * pin) as u32
}

/// Bit at which the four-bit field of a pin starts in its function register.
pub open spec fn nibble_shift(pin: u8) -> u32 {
    (4 * (pin % 8)) as u32
}

/// The function register that holds a pin's field: the low one for pins 0 to
/// 7, the high one for the rest.
pub open spec fn function_register(port: PortId, pin: u8) -> Register {
    if pin < 8 {
        Register::PinFunctionLow(port)
    } else {
        Register::PinFunctionHigh(port)
    }
}

/// The update that puts the pin into alternate-function mode.
pub open spec fn mode_write(binding: PinMuxBinding) -> RegisterWrite {
    RegisterWrite {
        register: Register::PinMode(binding.port_id),
        clear: 3u32 << pair_shift(binding.pin_index),
        set: MODE_ALTERNATE << pair_shift(binding.pin_index),
    }
}

/// The update that selects the pin's alternate function.
pub open spec fn function_write(binding: PinMuxBinding) -> RegisterWrite {
    RegisterWrite {
        register: function_register(binding.port_id, binding.pin_index),
        clear: 0xFu32 << nibble_shift(binding.pin_index),
        set: (binding.alternate_function_id as u32) << nibble_shift(binding.pin_index),
    }
}

/// The update that sets the pin's drive speed.
pub open spec fn speed_write(binding: PinMuxBinding) -> RegisterWrite {
    RegisterWrite {
        register: Register::PinSpeed(binding.port_id),
        clear: 3u32 << pair_shift(binding.pin_index),
        set: speed_code(binding.drive_speed) << pair_shift(binding.pin_index),
    }
}

/// The three updates of one binding: mode, function, speed.
pub open spec fn binding_writes(binding: PinMuxBinding) -> Seq<RegisterWrite> {
    seq![mode_write(binding), function_write(binding), speed_write(binding)]
}

/// The updates of a set of bindings: those of each binding, in the order of
/// the bindings.
pub open spec fn planned_writes(bindings: Seq<PinMuxBinding>) -> Seq<RegisterWrite>
    decreases bindings.len(),
{
    if bindings.len() == 0 {
        Seq::empty()
    } else {
        planned_writes(bindings.drop_last()) + binding_writes(bindings.last())
    }
}

/// The number of bindings that carry a data line.
pub open spec fn data_lines(bindings: Seq<PinMuxBinding>) -> nat
    decreases bindings.len(),
{
    if bindings.len() == 0 {
        0
    } else {
        data_lines(bindings.drop_last()) + if bindings.last().signal_role is Data {
            1nat
        } else {
            0nat
        }
    }
}

/// The number of bindings that carry an address line.
pub open spec fn address_lines(bindings: Seq<PinMuxBinding>) -> nat
    decreases bindings.len(),
{
    if bindings.len() == 0 {
        0
    } else {
        address_lines(bindings.drop_last()) + if bindings.last().signal_role is Address {
            1nat
        } else {
            0nat
        }
    }
}

/// The mode of a pin as the register file holds it.
pub open spec fn pin_mode(file: RegisterFile, port: PortId, pin: u8) -> u32 {
    field(file[Register::PinMode(port)], pair_shift(pin), 3)
}

/// The alternate function of a pin as the register file holds it.
pub open spec fn pin_function(file: RegisterFile, port: PortId, pin: u8) -> u32 {
    field(file[function_register(port, pin)], nibble_shift(pin), 0xF)
}

/// The drive speed of a pin as the register file holds it.
pub open spec fn pin_speed(file: RegisterFile, port: PortId, pin: u8) -> u32 {
    field(file[Register::PinSpeed(port)], pair_shift(pin), 3)
}

fn encode_speed(speed: DriveSpeed) -> (code: u32)
    ensures
        code == speed_code(speed),
        code <= 3,
{
    match speed {
        DriveSpeed::Low => 0,
        DriveSpeed::Medium => 1,
        DriveSpeed::High => 2,
        DriveSpeed::VeryHigh => 3,
    }
}

/// Plans the three updates of one supported binding.
fn plan_binding(binding: &PinMuxBinding) -> (writes: [RegisterWrite; 3])
    requires
        supported(*binding),
    ensures
        writes@ == binding_writes(*binding),
{
    let pin: u32 = binding.pin_index as u32;
    let pair: u32 = 2 * pin;
    let nibble: u32 = 4 * (pin % 8);
    let function: Register = if binding.pin_index < 8 {
        Register::PinFunctionLow(binding.port_id)
    } else {
        Register::PinFunctionHigh(binding.port_id)
    };
    let writes: [RegisterWrite; 3] = [
        RegisterWrite {
            register: Register::PinMode(binding.port_id),
            clear: 3u32 << pair,
            set: MODE_ALTERNATE << pair,
        },
        RegisterWrite {
            register: function,
            clear: 0xFu32 << nibble,
            set: (binding.alternate_function_id as u32) << nibble,
        },
        RegisterWrite {
            register: Register::PinSpeed(binding.port_id),
            clear: 3u32 << pair,
            set: encode_speed(binding.drive_speed) << pair,
        },
    ];
    assert(writes@ =~= binding_writes(*binding));
    writes
}

/// What [`apply`] answers: the refusal of the set, or its updates.
pub open spec fn apply_plan(bindings: Seq<PinMuxBinding>) -> Result<Seq<RegisterWrite>, PinMuxError> {
    if has_conflict(bindings) {
        Err(PinMuxError::ConflictingBinding)
    } else if !all_supported(bindings) {
        Err(PinMuxError::UnsupportedAlternateFunction)
    } else {
        Ok(planned_writes(bindings))
    }
}

/// Checks a set of bindings and plans its register updates.
///
/// A set in which a pin is bound twice is refused as conflicting, whatever
/// else holds of it. A set without such a pin is refused as unsupported if one
/// of its bindings is. Any other set is accepted, and its updates are those of
/// [`planned_writes`]. A refusal carries no update: nothing is written unless
/// the whole set is sound.
pub fn apply(bindings: &[PinMuxBinding]) -> (result: Result<Vec<RegisterWrite>, PinMuxError>)
    ensures
        match result {
            Ok(writes) => apply_plan(bindings@) == Ok::<Seq<RegisterWrite>, PinMuxError>(writes@),
            Err(error) => apply_plan(bindings@) == Err::<Seq<RegisterWrite>, PinMuxError>(error),
        },
{
    let count: usize = bindings.len();
    let mut i: usize = 0;
    while i < count
        invariant
            count == bindings@.len(),
            i <= count,
            forall|a: int, b: int|
                0 <= a < i && a < b < count ==> !same_pin(
                    #[trigger] bindings@[a],
                    #[trigger] bindings@[b],
                ),
        decreases count - i,
    {
        let mut j: usize = i + 1;
        while j < count
            invariant
                count == bindings@.len(),
                i < j <= count,
                forall|b: int| i < b < j ==> !same_pin(bindings@[i as int], #[trigger] bindings@[b]),
            decreases count - j,
        {
            if bindings[i].port_id == bindings[j].port_id && bindings[i].pin_index
                == bindings[j].pin_index {
                assert(same_pin(bindings@[i as int], bindings@[j as int]));
                return Err(PinMuxError::ConflictingBinding);
            }
            j += 1;
        }
        i += 1;
    }
    assert(!has_conflict(bindings@));
    let mut k: usize = 0;
    while k < count
        invariant
            count == bindings@.len(),
            k <= count,
            !has_conflict(bindings@),
            forall|a: int| 0 <= a < k ==> supported(#[trigger] bindings@[a]),
        decreases count - k,
    {
        if bindings[k].pin_index >= 16 || bindings[k].alternate_function_id >= 16 {
            assert(!supported(bindings@[k as int]));
            return Err(PinMuxError::UnsupportedAlternateFunction);
        }
        k += 1;
    }
    let mut writes: Vec<RegisterWrite> = Vec::new();
    let mut n: usize = 0;
    assert(bindings@.take(0) =~= Seq::empty());
    while n < count
        invariant
            count == bindings@.len(),
            n <= count,
            !has_conflict(bindings@),
            all_supported(bindings@),
            writes@ == planned_writes(bindings@.take(n as int)),
        decreases count - n,
    {
        let three: [RegisterWrite; 3] = plan_binding(&bindings[n]);
        writes.push(three[0]);
        writes.push(three[1]);
        writes.push(three[2]);
        proof {
            let done = bindings@.take(n as int + 1);
            assert(done.drop_last() =~= bindings@.take(n as int));
            assert(done.last() == bindings@[n as int]);
            assert(writes@ =~= planned_writes(done.drop_last()) + binding_writes(done.last()));
        }
        n += 1;
    }
    assert(bindings@.take(count as int) =~= bindings@);
    Ok(writes)
}

/// Counts the bindings that carry a data line.
pub fn data_line_count(bindings: &[PinMuxBinding]) -> (count: usize)
    ensures
        count == data_lines(bindings@),
{
    let total: usize = bindings.len();
    let mut count: usize = 0;
    let mut i: usize = 0;
    assert(bindings@.take(0) =~= Seq::empty());
    while i < total
        invariant
            total == bindings@.len(),
            i <= total,
            count <= i,
            count == data_lines(bindings@.take(i as int)),
        decreases total - i,
    {
        proof {
            let done = bindings@.take(i as int + 1);
            assert(done.drop_last() =~= bindings@.take(i as int));
            assert(done.last() == bindings@[i as int]);
        }
        match bindings[i].signal_role {
            SignalRole::Data(_) => {
                count += 1;
            },
            _ => {},
        }
        i += 1;
    }
    assert(bindings@.take(total as int) =~= bindings@);
    count
}

/// Counts the bindings that carry an address line.
pub fn address_line_count(bindings: &[PinMuxBinding]) -> (count: usize)
    ensures
        count == address_lines(bindings@),
{
    let total: usize = bindings.len();
    let mut count: usize = 0;
    let mut i: usize = 0;
    assert(bindings@.take(0) =~= Seq::empty());
    while i < total
        invariant
            total == bindings@.len(),
            i <= total,
            count <= i,
            count == address_lines(bindings@.take(i as int)),
        decreases total - i,
    {
        proof {
            let done = bindings@.take(i as int + 1);
            assert(done.drop_last() =~= bindings@.take(i as int));
            assert(done.last() == bindings@[i as int]);
        }
        match bindings[i].signal_role {
            SignalRole::Address(_) => {
                count += 1;
            },
            _ => {},
        }
        i += 1;
    }
    assert(bindings@.take(total as int) =~= bindings@);
    count
}

/// A set of bindings that names a pin twice is refused as conflicting,
/// whatever else it holds, and the refusal plans no update.
pub proof fn lemma_repeated_pin_refused(bindings: Seq<PinMuxBinding>, i: int, j: int)
    requires
        0 <= i < j < bindings.len(),
        same_pin(bindings[i], bindings[j]),
    ensures
        apply_plan(bindings) == Err::<Seq<RegisterWrite>, PinMuxError>(
            PinMuxError::ConflictingBinding,
        ),
{
}

/// What the three updates of one binding do to the fields of any pin: the
/// bound pin is in alternate-function mode with the binding's function and
/// speed, and every other pin is as it was.
pub proof fn lemma_binding_effect(file: RegisterFile, binding: PinMuxBinding, port: PortId, pin: u8)
    requires
        supported(binding),
        pin < 16,
    ensures
        ({
            let after = perform_all(file, binding_writes(binding));
            if binding.port_id == port && binding.pin_index == pin {
                &&& pin_mode(after, port, pin) == MODE_ALTERNATE
                &&& pin_function(after, port, pin) == binding.alternate_function_id
                &&& pin_speed(after, port, pin) == speed_code(binding.drive_speed)
            } else {
                &&& pin_mode(after, port, pin) == pin_mode(file, port, pin)
                &&& pin_function(after, port, pin) == pin_function(file, port, pin)
                &&& pin_speed(after, port, pin) == pin_speed(file, port, pin)
            }
        }),
{
    let mode = mode_write(binding);
    let function = function_write(binding);
    let speed = speed_write(binding);
    lemma_perform_three(file, mode, function, speed);
    let bound = binding.pin_index;
    lemma_pair_stored(
        file[Register::PinMode(binding.port_id)],
        pair_shift(bound),
        MODE_ALTERNATE,
        pair_shift(pin),
    );
    lemma_nibble_stored(
        file[function_register(binding.port_id, bound)],
        nibble_shift(bound),
        binding.alternate_function_id as u32,
        nibble_shift(pin),
    );
    lemma_pair_stored(
        file[Register::PinSpeed(binding.port_id)],
        pair_shift(bound),
        speed_code(binding.drive_speed),
        pair_shift(pin),
    );
}

/// What the updates of an accepted set of bindings do, on whatever the
/// registers held before: each bound pin ends in alternate-function mode with
/// the function and the speed of its binding, and a pin that no binding names
/// keeps its mode, function and speed.
pub proof fn lemma_apply_configures(
    file: RegisterFile,
    bindings: Seq<PinMuxBinding>,
    port: PortId,
    pin: u8,
)
    requires
        !has_conflict(bindings),
        all_supported(bindings),
        pin < 16,
    ensures
        ({
            let after = perform_all(file, planned_writes(bindings));
            &&& forall|k: int|
                0 <= k < bindings.len() && (#[trigger] bindings[k]).port_id == port
                    && bindings[k].pin_index == pin ==> {
                    &&& pin_mode(after, port, pin) == MODE_ALTERNATE
                    &&& pin_function(after, port, pin) == bindings[k].alternate_function_id
                    &&& pin_speed(after, port, pin) == speed_code(bindings[k].drive_speed)
                }
            &&& (forall|k: int|
                0 <= k < bindings.len() ==> !((#[trigger] bindings[k]).port_id == port
                    && bindings[k].pin_index == pin)) ==> {
                &&& pin_mode(after, port, pin) == pin_mode(file, port, pin)
                &&& pin_function(after, port, pin) == pin_function(file, port, pin)
                &&& pin_speed(after, port, pin) == pin_speed(file, port, pin)
            }
        }),
    decreases bindings.len(),
{
    if bindings.len() > 0 {
        let earlier = bindings.drop_last();
        let last = bindings.last();
        let middle = perform_all(file, planned_writes(earlier));
        assert(!has_conflict(earlier)) by {
            if has_conflict(earlier) {
                let (i, j) = choose|i: int, j: int|
                    0 <= i < j < earlier.len() && same_pin(
                        #[trigger] earlier[i],
                        #[trigger] earlier[j],
                    );
                assert(same_pin(bindings[i], bindings[j]));
            }
        }
        assert(all_supported(earlier)) by {
            assert forall|i: int| 0 <= i < earlier.len() implies supported(
                #[trigger] earlier[i],
            ) by {
                assert(supported(bindings[i]));
            }
        }
        assert(supported(last));
        lemma_apply_configures(file, earlier, port, pin);
        lemma_perform_all_joined(file, planned_writes(earlier), binding_writes(last));
        lemma_binding_effect(middle, last, port, pin);
        let after = perform_all(file, planned_writes(bindings));
        assert(after == perform_all(middle, binding_writes(last)));
        if last.port_id == port && last.pin_index == pin {
            assert forall|k: int|
                0 <= k < bindings.len() && (#[trigger] bindings[k]).port_id == port
                    && bindings[k].pin_index == pin implies k == bindings.len() - 1 by {
                if k < bindings.len() - 1 {
                    assert(same_pin(bindings[k], bindings[bindings.len() - 1]));
                }
            }
        } else {
            assert forall|k: int|
                0 <= k < bindings.len() && (#[trigger] bindings[k]).port_id == port
                    && bindings[k].pin_index == pin implies {
                &&& pin_mode(after, port, pin) == MODE_ALTERNATE
                &&& pin_function(after, port, pin) == bindings[k].alternate_function_id
                &&& pin_speed(after, port, pin) == speed_code(bindings[k].drive_speed)
            } by {
                assert(earlier[k] == bindings[k]);
            }
            if forall|k: int|
                0 <= k < bindings.len() ==> !((#[trigger] bindings[k]).port_id == port
                    && bindings[k].pin_index == pin) {
                assert forall|k: int| 0 <= k < earlier.len() implies !((#[trigger] earlier[k]).port_id
                    == port && earlier[k].pin_index == pin) by {
                    assert(earlier[k] == bindings[k]);
                }
            }
        }
    }
}

} // verus!
