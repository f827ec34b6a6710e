use core_s3::bus::{pulse_values, updated_bit};

#[test]
fn updated_bit_changes_only_that_bit() {
    assert_eq!(updated_bit(0b0000_0000, 3, true), 0b0000_1000);
    assert_eq!(updated_bit(0b1111_1111, 0, false), 0b1111_1110);
    assert_eq!(updated_bit(0b1010_1010, 1, true), 0b1010_1010);
    for current in 0..=255u8 {
        for bit in 0..8u8 {
            for value in [false, true] {
                let next = updated_bit(current, bit, value);
                assert_eq!((next >> bit) & 1 == 1, value);
                assert_eq!(next & !(1 << bit), current & !(1 << bit));
            }
        }
    }
}

#[test]
fn pulse_clears_then_sets() {
    assert_eq!(pulse_values(0b0000_0011, 1), (0b0000_0001, 0b0000_0011));
    assert_eq!(pulse_values(0b0000_0000, 1), (0b0000_0000, 0b0000_0010));
}
