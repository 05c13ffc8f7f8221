use fmc_bringup::pinmux::{
    address_line_count, apply, data_line_count, DriveSpeed, PinMuxBinding, PinMuxError, SignalRole,
    MODE_ALTERNATE,
};
use fmc_bringup::pinmux::SignalRole::{Address, ChipSelect, Data, OutputEnable, WriteEnable};
use fmc_bringup::regs::PortId::{D, E, F, G, H};
use fmc_bringup::regs::{PortId, Register, RegisterWrite};
use std::collections::HashMap;

fn bind(port_id: PortId, pin_index: u8, signal_role: SignalRole) -> PinMuxBinding {
    PinMuxBinding {
        port_id,
        pin_index,
        signal_role,
        alternate_function_id: 12,
        drive_speed: DriveSpeed::VeryHigh,
    }
}

/// Sixteen address lines, sixteen data lines and the three control lines.
fn memory_bus() -> Vec<PinMuxBinding> {
    vec![
        bind(H, 0, Address(0)),
        bind(H, 1, Address(1)),
        bind(F, 2, Address(2)),
        bind(F, 3, Address(3)),
        bind(F, 4, Address(4)),
        bind(F, 5, Address(5)),
        bind(F, 12, Address(6)),
        bind(F, 13, Address(7)),
        bind(F, 14, Address(8)),
        bind(F, 15, Address(9)),
        bind(G, 0, Address(10)),
        bind(G, 1, Address(11)),
        bind(G, 2, Address(12)),
        bind(G, 3, Address(13)),
        bind(G, 4, Address(14)),
        bind(G, 5, Address(15)),
        bind(D, 14, Data(0)),
        bind(D, 15, Data(1)),
        bind(D, 0, Data(2)),
        bind(D, 1, Data(3)),
        bind(E, 7, Data(4)),
        bind(E, 8, Data(5)),
        bind(E, 9, Data(6)),
        bind(E, 10, Data(7)),
        bind(E, 11, Data(8)),
        bind(E, 12, Data(9)),
        bind(E, 13, Data(10)),
        bind(E, 14, Data(11)),
        bind(E, 15, Data(12)),
        bind(D, 8, Data(13)),
        bind(D, 9, Data(14)),
        bind(D, 10, Data(15)),
        bind(D, 7, ChipSelect),
        bind(D, 4, OutputEnable),
        bind(D, 5, WriteEnable),
    ]
}

fn perform(words: &mut HashMap<Register, u32>, writes: &[RegisterWrite]) {
    for write in writes {
        let before = *words.get(&write.register).unwrap_or(&0);
        words.insert(write.register, write.merge(before));
    }
}

fn word(words: &HashMap<Register, u32>, register: Register) -> u32 {
    *words.get(&register).unwrap_or(&0)
}

#[test]
fn one_binding_plans_mode_function_speed() {
    let writes = apply(&[bind(PortId::H, 0, SignalRole::Address(0))]).unwrap();
    assert_eq!(
        writes,
        vec![
            RegisterWrite { register: Register::PinMode(PortId::H), clear: 0x3, set: 0x2 },
            RegisterWrite { register: Register::PinFunctionLow(PortId::H), clear: 0xF, set: 0xC },
            RegisterWrite { register: Register::PinSpeed(PortId::H), clear: 0x3, set: 0x3 },
        ]
    );
}

#[test]
fn high_pins_use_the_high_function_register() {
    let binding = PinMuxBinding {
        port_id: PortId::F,
        pin_index: 12,
        signal_role: SignalRole::Address(6),
        alternate_function_id: 5,
        drive_speed: DriveSpeed::Medium,
    };
    let writes = apply(&[binding]).unwrap();
    assert_eq!(
        writes,
        vec![
            RegisterWrite { register: Register::PinMode(PortId::F), clear: 0x3 << 24, set: 0x2 << 24 },
            RegisterWrite {
                register: Register::PinFunctionHigh(PortId::F),
                clear: 0xF << 16,
                set: 0x5 << 16,
            },
            RegisterWrite { register: Register::PinSpeed(PortId::F), clear: 0x3 << 24, set: 0x1 << 24 },
        ]
    );
    let eighth = PinMuxBinding { pin_index: 8, ..binding };
    assert_eq!(apply(&[eighth]).unwrap()[1].register, Register::PinFunctionHigh(PortId::F));
    assert_eq!(apply(&[eighth]).unwrap()[1].clear, 0xF);
    let seventh = PinMuxBinding { pin_index: 7, ..binding };
    assert_eq!(apply(&[seventh]).unwrap()[1].register, Register::PinFunctionLow(PortId::F));
    assert_eq!(apply(&[seventh]).unwrap()[1].clear, 0xF000_0000);
    let last = PinMuxBinding { pin_index: 15, ..binding };
    assert_eq!(apply(&[last]).unwrap()[0].clear, 0xC000_0000);
    assert_eq!(apply(&[last]).unwrap()[1].clear, 0xF000_0000);
}

#[test]
fn drive_speeds_are_encoded() {
    for (speed, code) in [
        (DriveSpeed::Low, 0u32),
        (DriveSpeed::Medium, 1),
        (DriveSpeed::High, 2),
        (DriveSpeed::VeryHigh, 3),
    ] {
        let binding = PinMuxBinding {
            port_id: PortId::A,
            pin_index: 3,
            signal_role: SignalRole::ChipSelect,
            alternate_function_id: 0,
            drive_speed: speed,
        };
        let writes = apply(&[binding]).unwrap();
        assert_eq!(writes[2].set, code << 6);
        assert_eq!(writes[1].set, 0);
        assert_eq!(writes[0].set, MODE_ALTERNATE << 6);
    }
}

#[test]
fn whole_bus_is_planned_in_the_order_of_its_bindings() {
    let bus = memory_bus();
    let writes = apply(&bus).unwrap();
    assert_eq!(writes.len(), 3 * bus.len());
    for (k, binding) in bus.iter().enumerate() {
        assert_eq!(writes[3 * k], apply(&[*binding]).unwrap()[0]);
        assert_eq!(writes[3 * k + 1], apply(&[*binding]).unwrap()[1]);
        assert_eq!(writes[3 * k + 2], apply(&[*binding]).unwrap()[2]);
    }
}

#[test]
fn whole_bus_configures_bound_pins_and_no_other() {
    let bus = memory_bus();
    let writes = apply(&bus).unwrap();
    let mut words: HashMap<Register, u32> = HashMap::new();
    let ports = [PortId::A, PortId::B, PortId::C, PortId::D, PortId::E, PortId::F, PortId::G, PortId::H];
    // Start from a pattern so that untouched fields can be told apart.
    for port in ports {
        words.insert(Register::PinMode(port), 0x5555_5555);
        words.insert(Register::PinFunctionLow(port), 0x1111_1111);
        words.insert(Register::PinFunctionHigh(port), 0x7777_7777);
        words.insert(Register::PinSpeed(port), 0x0000_0000);
    }
    perform(&mut words, &writes);
    for port in ports {
        for pin in 0u8..16 {
            let bound = bus.iter().any(|b| b.port_id == port && b.pin_index == pin);
            let mode = (word(&words, Register::PinMode(port)) >> (2 * pin)) & 3;
            let speed = (word(&words, Register::PinSpeed(port)) >> (2 * pin)) & 3;
            let function = if pin < 8 {
                (word(&words, Register::PinFunctionLow(port)) >> (4 * pin)) & 0xF
            } else {
                (word(&words, Register::PinFunctionHigh(port)) >> (4 * (pin - 8))) & 0xF
            };
            if bound {
                assert_eq!((mode, function, speed), (2, 12, 3), "{:?}{}", port, pin);
            } else {
                let kept = if pin < 8 { 1 } else { 7 };
                assert_eq!((mode, function, speed), (1, kept, 0), "{:?}{}", port, pin);
            }
        }
    }
}

#[test]
fn repeated_pin_is_a_conflict_and_plans_nothing() {
    let mut bus = memory_bus();
    bus.push(bind(PortId::H, 1, SignalRole::Data(0)));
    assert_eq!(apply(&bus), Err(PinMuxError::ConflictingBinding));
    let pair = [bind(PortId::D, 4, SignalRole::OutputEnable), bind(PortId::D, 4, SignalRole::OutputEnable)];
    assert_eq!(apply(&pair), Err(PinMuxError::ConflictingBinding));
    let apart = [
        bind(PortId::D, 4, SignalRole::OutputEnable),
        bind(PortId::E, 3, SignalRole::WriteEnable),
        bind(PortId::D, 4, SignalRole::ChipSelect),
    ];
    assert_eq!(apply(&apart), Err(PinMuxError::ConflictingBinding));
}

#[test]
fn same_index_on_different_banks_is_no_conflict() {
    let bus = [
        bind(PortId::D, 4, SignalRole::OutputEnable),
        bind(PortId::E, 4, SignalRole::WriteEnable),
        bind(PortId::D, 5, SignalRole::ChipSelect),
    ];
    assert_eq!(apply(&bus).unwrap().len(), 9);
}

#[test]
fn function_or_pin_without_a_field_is_unsupported() {
    let wide = PinMuxBinding { alternate_function_id: 16, ..bind(PortId::D, 4, SignalRole::OutputEnable) };
    assert_eq!(apply(&[wide]), Err(PinMuxError::UnsupportedAlternateFunction));
    let far = PinMuxBinding { pin_index: 16, ..bind(PortId::D, 4, SignalRole::OutputEnable) };
    assert_eq!(apply(&[far]), Err(PinMuxError::UnsupportedAlternateFunction));
    let edge = PinMuxBinding { alternate_function_id: 15, pin_index: 15, ..wide };
    assert!(apply(&[edge]).is_ok());
    let mut bus = memory_bus();
    bus.push(PinMuxBinding { alternate_function_id: 200, ..bind(PortId::A, 0, SignalRole::Data(0)) });
    assert_eq!(apply(&bus), Err(PinMuxError::UnsupportedAlternateFunction));
}

#[test]
fn a_conflict_is_reported_before_an_unsupported_function() {
    let wide = PinMuxBinding { alternate_function_id: 99, ..bind(PortId::D, 4, SignalRole::OutputEnable) };
    let bus = [wide, bind(PortId::B, 2, SignalRole::ChipSelect), bind(PortId::B, 2, SignalRole::WriteEnable)];
    assert_eq!(apply(&bus), Err(PinMuxError::ConflictingBinding));
    let far = PinMuxBinding { pin_index: 77, ..wide };
    assert_eq!(apply(&[far, far]), Err(PinMuxError::ConflictingBinding));
}

#[test]
fn no_bindings_plan_no_writes() {
    assert_eq!(apply(&[]), Ok(vec![]));
    assert_eq!(data_line_count(&[]), 0);
    assert_eq!(address_line_count(&[]), 0);
}

#[test]
fn lines_are_counted_by_role() {
    let bus = memory_bus();
    assert_eq!(data_line_count(&bus), 16);
    assert_eq!(address_line_count(&bus), 16);
    assert_eq!(data_line_count(&bus[..24]), 8);
    assert_eq!(address_line_count(&bus[..3]), 3);
    assert_eq!(data_line_count(&bus[32..]), 0);
}
