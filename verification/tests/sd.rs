use core_s3::sd::{core_s3_card_present_from_aw9523_p0, CoreS3SdSlot, SdCardDetect, SdCardSlot};

#[test]
fn card_detect_is_active_low_on_p0_bit4() {
    assert!(core_s3_card_present_from_aw9523_p0(0b1110_1111));
    assert!(!core_s3_card_present_from_aw9523_p0(0b0001_0000));
}

#[test]
fn active_high_detect_follows_the_bit() {
    let detect = SdCardDetect { port: 1, bit: 0, active_low: false };
    assert!(detect.present_from_port_value(0x01));
    assert!(!detect.present_from_port_value(0xFE));
}

#[test]
fn slot_metadata_converts_from_slot() {
    let slot: CoreS3SdSlot = SdCardSlot::core_s3().into();
    assert_eq!(slot, CoreS3SdSlot::core_s3());
    assert_eq!(slot.cs_gpio, 4);
    assert_eq!(slot.card_detect_gpio, None);
}
