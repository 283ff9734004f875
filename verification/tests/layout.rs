use gimmick_table::layout::{
    mem8_to_file, pointer_to_file, slot_offset, GIMMICK_TABLE_END, GIMMICK_TABLE_SIZE,
    GIMMICK_TABLE_START, MEM8_BEGIN, NUM_TABLE_ENTRIES,
};

#[test]
fn base_address_maps_to_offset_zero() {
    assert_eq!(mem8_to_file(MEM8_BEGIN), 0);
    assert_eq!(mem8_to_file(0x80000000), 0);
}

#[test]
fn offset_is_address_minus_base() {
    assert_eq!(mem8_to_file(0x80000001), 1);
    assert_eq!(mem8_to_file(0x8083B468), 0x83B468);
    assert_eq!(mem8_to_file(0x8083CF98), 0x83CF98);
    assert_eq!(mem8_to_file(0xFFFFFFFF), 0x7FFFFFFF);
}

#[test]
fn table_constants() {
    assert_eq!(GIMMICK_TABLE_START, 0x8083B468);
    assert_eq!(GIMMICK_TABLE_END, 0x8083CF98);
    assert_eq!(GIMMICK_TABLE_SIZE, 16);
    assert_eq!(NUM_TABLE_ENTRIES, 435);
    assert_eq!(NUM_TABLE_ENTRIES, (GIMMICK_TABLE_END - GIMMICK_TABLE_START) / GIMMICK_TABLE_SIZE);
    assert_eq!((GIMMICK_TABLE_END - GIMMICK_TABLE_START) % GIMMICK_TABLE_SIZE, 0);
}

#[test]
fn pointer_below_the_image_has_no_offset() {
    assert_eq!(pointer_to_file(0), None);
    assert_eq!(pointer_to_file(1), None);
    assert_eq!(pointer_to_file(0x7FFFFFFF), None);
}

#[test]
fn pointer_inside_the_image_has_an_offset() {
    assert_eq!(pointer_to_file(0x80000000), Some(0));
    assert_eq!(pointer_to_file(0x80000010), Some(0x10));
    assert_eq!(pointer_to_file(0xFFFFFFFF), Some(0x7FFFFFFF));
}

#[test]
fn slots_follow_one_another() {
    assert_eq!(slot_offset(0), 0x83B468);
    assert_eq!(slot_offset(1), 0x83B478);
    assert_eq!(slot_offset(2), 0x83B488);
    assert_eq!(slot_offset(434), 0x83CF88);
    assert_eq!(slot_offset(NUM_TABLE_ENTRIES - 1) + GIMMICK_TABLE_SIZE, mem8_to_file(GIMMICK_TABLE_END));
}
