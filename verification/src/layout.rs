//! Where the table lies: the fixed addresses, and the offset in the image
//! that a virtual address stands for.

use vstd::prelude::*;

verus! {

/// Virtual address of the first byte of the image.
pub const MEM8_BEGIN: usize = 0x80000000;

/// Virtual address of the first table slot.
pub const GIMMICK_TABLE_START: usize = 0x8083B468;

/// Virtual address just past the last table slot.
pub const GIMMICK_TABLE_END: usize = 0x8083CF98;

/// Size of one table slot in bytes.
pub const GIMMICK_TABLE_SIZE: usize = 0x10;

/// Number of slots in the table.
pub const NUM_TABLE_ENTRIES: usize = (GIMMICK_TABLE_END - GIMMICK_TABLE_START) / GIMMICK_TABLE_SIZE;

/// Offset in the image of the byte that the virtual address `address` names.
pub open spec fn spec_file_offset(address: int) -> int {
    address - MEM8_BEGIN
}

/// Offset in the image of the first byte of slot `slot`.
pub open spec fn spec_slot_offset(slot: int) -> int {
    spec_file_offset(GIMMICK_TABLE_START as int) + slot * GIMMICK_TABLE_SIZE
}

/// Offset in the image just past the last slot of the table.
pub open spec fn spec_table_end_offset() -> int {
    spec_file_offset(GIMMICK_TABLE_END as int)
}

/// Maps a virtual address inside the image to its offset in the image.
///
/// The address is not held against the length of any image: an offset is
/// tested where it is used.
pub fn mem8_to_file(memory_address: usize) -> (offset: usize)
    requires
        memory_address >= MEM8_BEGIN,
    ensures
        offset == spec_file_offset(memory_address as int),
{
    memory_address - MEM8_BEGIN
}

/// Maps a 32-bit pointer read from the image to its offset. `None` when the pointer
/// lies below the start of the image, where no offset exists.
pub fn pointer_to_file(pointer: u32) -> (offset: Option<usize>)
    ensures
        offset is Some <==> pointer >= MEM8_BEGIN,
        offset matches Some(o) ==> o == spec_file_offset(pointer as int),
{
    let address: usize = pointer as usize;
    if address >= MEM8_BEGIN {
        Some(mem8_to_file(address))
    } else {
        None
    }
}

/// Offset in the image of the first byte of slot `slot`.
pub fn slot_offset(slot: usize) -> (offset: usize)
    requires
        slot < NUM_TABLE_ENTRIES,
    ensures
        offset == spec_slot_offset(slot as int),
        offset + GIMMICK_TABLE_SIZE <= spec_table_end_offset(),
{
    mem8_to_file(GIMMICK_TABLE_START) + slot * GIMMICK_TABLE_SIZE
}

/// The table holds a whole number of slots: its 435 slots fill the range
/// from its start to its end exactly, and follow one another without gaps.
pub proof fn lemma_table_region_exact()
    ensures
        GIMMICK_TABLE_START <= GIMMICK_TABLE_END,
        (GIMMICK_TABLE_END - GIMMICK_TABLE_START) % (GIMMICK_TABLE_SIZE as int) == 0,
        NUM_TABLE_ENTRIES == 435,
        NUM_TABLE_ENTRIES * GIMMICK_TABLE_SIZE == GIMMICK_TABLE_END - GIMMICK_TABLE_START,
        spec_slot_offset(NUM_TABLE_ENTRIES as int) == spec_table_end_offset(),
        forall|slot: int| #[trigger]
            spec_slot_offset(slot + 1) == spec_slot_offset(slot) + GIMMICK_TABLE_SIZE,
{
}

} // verus!
