use fmc_bringup::regs::{Register, RegisterWrite};

#[test]
fn merge_clears_then_sets() {
    let write = RegisterWrite { register: Register::ClockConfig, clear: 0x0000_00F0, set: 0x0000_0090 };
    assert_eq!(write.merge(0xFFFF_FFFF), 0xFFFF_FF9F);
    assert_eq!(write.merge(0x0000_0000), 0x0000_0090);
    assert_eq!(write.merge(0x1234_5678), 0x1234_5698);
}

#[test]
fn merge_keeps_bits_outside_the_update() {
    let write = RegisterWrite { register: Register::ClockControl, clear: 0x0100_0000, set: 0 };
    assert_eq!(write.merge(0x0300_0083), 0x0200_0083);
    let nothing = RegisterWrite { register: Register::ClockControl, clear: 0, set: 0 };
    for word in [0u32, 1, 0xDEAD_BEEF, u32::MAX] {
        assert_eq!(nothing.merge(word), word);
    }
}

#[test]
fn merge_sets_bits_even_where_none_is_cleared() {
    let write = RegisterWrite { register: Register::BusClockEnable, clear: 0, set: 0x20 };
    assert_eq!(write.merge(0x14), 0x34);
    assert_eq!(write.merge(0x34), 0x34);
}
