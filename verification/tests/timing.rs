use fmc_bringup::regs::{BankId, Register, RegisterWrite};
use fmc_bringup::timing::{
    commit, AccessMode, BankConfig, BankTiming, DataWidth, MemoryClass, TimingError, TimingField,
    CONTROL_MASK, TIMING_MASK,
};

fn sram16() -> BankConfig {
    BankConfig {
        bank_id: BankId::Bank1,
        enabled: true,
        memory_class: MemoryClass::Sram,
        data_width: DataWidth::Bits16,
        burst_enabled: false,
        wrap_enabled: false,
        multiplexed: false,
        extended_mode: false,
        async_wait_enabled: false,
    }
}

fn timing_1_5_1() -> BankTiming {
    BankTiming {
        address_setup_cycles: 1,
        address_hold_cycles: 1,
        data_setup_cycles: 5,
        bus_turnaround_cycles: 0,
        clock_division: 0,
        data_latency_cycles: 0,
        access_mode: AccessMode::A,
    }
}

#[test]
fn commit_plans_control_then_timing() {
    let writes = commit(&sram16(), &timing_1_5_1(), 16).unwrap();
    assert_eq!(
        writes,
        vec![
            RegisterWrite { register: Register::BankControl(BankId::Bank1), clear: 0xC53F, set: 0x11 },
            RegisterWrite {
                register: Register::BankTiming(BankId::Bank1),
                clear: 0x3FFF_FFFF,
                set: 0x0000_0511,
            },
        ]
    );
    // On the words that the controller holds after reset.
    assert_eq!(writes[0].merge(0x0000_30DB), 0x0000_30D1);
    assert_eq!(writes[1].merge(0x0FFF_FFFF), 0x0000_0511);
    assert_eq!(writes[1].merge(0xFFFF_FFFF), 0xC000_0511);
}

#[test]
fn sixteen_bit_bank_on_eight_lines_is_unsupported() {
    assert_eq!(commit(&sram16(), &timing_1_5_1(), 8), Err(TimingError::UnsupportedConfig));
    let all_set = BankConfig {
        bank_id: BankId::Bank3,
        enabled: false,
        memory_class: MemoryClass::Nor,
        data_width: DataWidth::Bits16,
        burst_enabled: true,
        wrap_enabled: true,
        multiplexed: false,
        extended_mode: true,
        async_wait_enabled: true,
    };
    assert_eq!(commit(&all_set, &timing_1_5_1(), 8), Err(TimingError::UnsupportedConfig));
    let bad_timing = BankTiming { address_setup_cycles: 99, ..timing_1_5_1() };
    assert_eq!(commit(&sram16(), &bad_timing, 8), Err(TimingError::UnsupportedConfig));
}

#[test]
fn width_must_match_the_wired_lines() {
    let narrow = BankConfig { data_width: DataWidth::Bits8, ..sram16() };
    assert!(commit(&narrow, &timing_1_5_1(), 8).is_ok());
    assert_eq!(commit(&narrow, &timing_1_5_1(), 16), Err(TimingError::UnsupportedConfig));
    for lines in [0usize, 1, 7, 9, 15, 17, 32, usize::MAX] {
        assert_eq!(commit(&sram16(), &timing_1_5_1(), lines), Err(TimingError::UnsupportedConfig));
        assert_eq!(commit(&narrow, &timing_1_5_1(), lines), Err(TimingError::UnsupportedConfig));
    }
}

#[test]
fn multiplexed_bank_is_unsupported() {
    let shared = BankConfig { multiplexed: true, ..sram16() };
    assert_eq!(commit(&shared, &timing_1_5_1(), 16), Err(TimingError::UnsupportedConfig));
    assert_eq!(commit(&shared, &timing_1_5_1(), 8), Err(TimingError::UnsupportedConfig));
}

#[test]
fn each_field_is_held_to_its_width() {
    let good = timing_1_5_1();
    let cases = [
        (BankTiming { address_setup_cycles: 16, ..good }, TimingField::AddressSetup),
        (BankTiming { address_hold_cycles: 16, ..good }, TimingField::AddressHold),
        (BankTiming { data_setup_cycles: 256, ..good }, TimingField::DataSetup),
        (BankTiming { bus_turnaround_cycles: 16, ..good }, TimingField::BusTurnaround),
        (BankTiming { clock_division: 16, ..good }, TimingField::ClockDivision),
        (BankTiming { data_latency_cycles: 16, ..good }, TimingField::DataLatency),
        (BankTiming { data_latency_cycles: u32::MAX, ..good }, TimingField::DataLatency),
    ];
    for (timing, field) in cases {
        assert_eq!(timing.check(), Some(field));
        assert_eq!(commit(&sram16(), &timing, 16), Err(TimingError::OutOfRange(field)));
    }
    assert_eq!(good.check(), None);
}

#[test]
fn the_first_field_out_of_range_is_reported() {
    let timing = BankTiming {
        address_setup_cycles: 15,
        address_hold_cycles: 15,
        data_setup_cycles: 300,
        bus_turnaround_cycles: 15,
        clock_division: 20,
        data_latency_cycles: 20,
        access_mode: AccessMode::D,
    };
    assert_eq!(commit(&sram16(), &timing, 16), Err(TimingError::OutOfRange(TimingField::DataSetup)));
    let all = BankTiming { address_setup_cycles: 16, address_hold_cycles: 16, ..timing };
    assert_eq!(commit(&sram16(), &all, 16), Err(TimingError::OutOfRange(TimingField::AddressSetup)));
}

#[test]
fn largest_values_fill_their_fields() {
    let timing = BankTiming {
        address_setup_cycles: 15,
        address_hold_cycles: 15,
        data_setup_cycles: 255,
        bus_turnaround_cycles: 15,
        clock_division: 15,
        data_latency_cycles: 15,
        access_mode: AccessMode::D,
    };
    let bank = BankConfig {
        bank_id: BankId::Bank4,
        enabled: true,
        memory_class: MemoryClass::Nor,
        data_width: DataWidth::Bits16,
        burst_enabled: true,
        wrap_enabled: true,
        multiplexed: false,
        extended_mode: true,
        async_wait_enabled: true,
    };
    let writes = commit(&bank, &timing, 16).unwrap();
    assert_eq!(writes[0].register, Register::BankControl(BankId::Bank4));
    assert_eq!(writes[0].clear, CONTROL_MASK);
    assert_eq!(writes[0].set, 0x1 | (2 << 2) | (1 << 4) | 0x100 | 0x400 | 0x4000 | 0x8000);
    assert_eq!(writes[1].register, Register::BankTiming(BankId::Bank4));
    assert_eq!(writes[1].clear, TIMING_MASK);
    assert_eq!(writes[1].set, 0x3FFF_FFFF);
}

#[test]
fn each_setting_lands_in_its_own_bits() {
    let base = BankConfig { enabled: false, data_width: DataWidth::Bits8, ..sram16() };
    let control = |bank: BankConfig| commit(&bank, &timing_1_5_1(), 8).unwrap()[0].set;
    assert_eq!(control(base), 0);
    assert_eq!(control(BankConfig { enabled: true, ..base }), 1 << 0);
    assert_eq!(control(BankConfig { memory_class: MemoryClass::Psram, ..base }), 1 << 2);
    assert_eq!(control(BankConfig { memory_class: MemoryClass::Nor, ..base }), 2 << 2);
    assert_eq!(control(BankConfig { burst_enabled: true, ..base }), 1 << 8);
    assert_eq!(control(BankConfig { wrap_enabled: true, ..base }), 1 << 10);
    assert_eq!(control(BankConfig { extended_mode: true, ..base }), 1 << 14);
    assert_eq!(control(BankConfig { async_wait_enabled: true, ..base }), 1 << 15);
    assert_eq!(commit(&sram16(), &timing_1_5_1(), 16).unwrap()[0].set, 1 | (1 << 4));

    let zero = BankTiming {
        address_setup_cycles: 0,
        address_hold_cycles: 0,
        data_setup_cycles: 0,
        bus_turnaround_cycles: 0,
        clock_division: 0,
        data_latency_cycles: 0,
        access_mode: AccessMode::A,
    };
    let word = |timing: BankTiming| commit(&sram16(), &timing, 16).unwrap()[1].set;
    assert_eq!(word(zero), 0);
    assert_eq!(word(BankTiming { address_setup_cycles: 0xF, ..zero }), 0xF);
    assert_eq!(word(BankTiming { address_hold_cycles: 0xA, ..zero }), 0xA << 4);
    assert_eq!(word(BankTiming { data_setup_cycles: 0xBC, ..zero }), 0xBC << 8);
    assert_eq!(word(BankTiming { bus_turnaround_cycles: 0xD, ..zero }), 0xD << 16);
    assert_eq!(word(BankTiming { clock_division: 0xE, ..zero }), 0xE << 20);
    assert_eq!(word(BankTiming { data_latency_cycles: 0x9, ..zero }), 0x9 << 24);
    assert_eq!(word(BankTiming { access_mode: AccessMode::B, ..zero }), 1 << 28);
    assert_eq!(word(BankTiming { access_mode: AccessMode::C, ..zero }), 2 << 28);
    assert_eq!(word(BankTiming { access_mode: AccessMode::D, ..zero }), 3 << 28);
}

#[test]
fn each_bank_has_its_own_registers() {
    for bank_id in [BankId::Bank1, BankId::Bank2, BankId::Bank3, BankId::Bank4] {
        let writes = commit(&BankConfig { bank_id, ..sram16() }, &timing_1_5_1(), 16).unwrap();
        assert_eq!(writes[0].register, Register::BankControl(bank_id));
        assert_eq!(writes[1].register, Register::BankTiming(bank_id));
    }
}

#[test]
fn read_back_words_confirm_what_was_committed() {
    let bank = sram16();
    let timing = timing_1_5_1();
    let writes = commit(&bank, &timing, 16).unwrap();
    let control = writes[0].merge(0x0000_30DB);
    let word = writes[1].merge(0xFFFF_FFFF);
    assert!(bank.confirmed_by(control));
    assert!(timing.confirmed_by(word));
    // A write that did not reach the controller leaves the words after reset.
    assert!(!bank.confirmed_by(0x0000_30DB));
    assert!(!timing.confirmed_by(0x0FFF_FFFF));
    // One owned bit off is enough.
    assert!(!bank.confirmed_by(control ^ 0x1));
    assert!(!bank.confirmed_by(control ^ 0x400));
    assert!(!timing.confirmed_by(word ^ 0x100));
    // Bits that the configuration does not own do not matter.
    assert!(bank.confirmed_by(control ^ 0x3000));
    assert!(timing.confirmed_by(word ^ 0x8000_0000));
}
