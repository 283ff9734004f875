//! The table decoder: from the image to one decoded entry per slot.

use crate::bytes::{be_u32_at, read_c_string, spec_be_u32, spec_c_string};
use crate::layout::{
    pointer_to_file, slot_offset, spec_file_offset, spec_slot_offset, spec_table_end_offset,
    GIMMICK_TABLE_SIZE, MEM8_BEGIN, NUM_TABLE_ENTRIES,
};
use crate::text::{
    decode_description, resource_name_text, spec_decode_error_marker, spec_description,
    spec_fits_decoder, shift_jis_decoded,
};
use vstd::prelude::*;
use vstd::slice::slice_subrange;
use vstd::utf8::{decode_utf8, valid_utf8};

verus! {

/// The fields of one table slot as they are stored.
#[derive(Clone, Copy, Debug, PartialEq, Eq)]
pub struct RawEntry {
    /// Virtual address of the description string, or zero.
    pub description_address: u32,
    /// Virtual address of the resource name string, or zero.
    pub resource_name_address: u32,
    /// Address of the build function, or zero.
    pub build_function_address: u32,
    /// The flag byte; any value but zero marks a common gimmick.
    pub flag: u8,
}

/// One decoded table entry.
#[derive(Debug, PartialEq, Eq)]
pub struct GimmickTable {
    /// The description, or `None` where the slot points to none.
    pub description: Option<String>,
    /// The resource name, or `None` where the slot points to none.
    pub resource_name: Option<String>,
    /// Address of the build function as stored; zero stands for none.
    pub build_function_address: u32,
    /// Whether the gimmick is common.
    pub is_common: bool,
}

/// What a decoded entry holds, as plain values.
pub struct GimmickTableView {
    pub description: Option<Seq<char>>,
    pub resource_name: Option<Seq<char>>,
    pub build_function_address: u32,
    pub is_common: bool,
}

/// Why an image could not be decoded. Each of them ends the whole decoding.
#[derive(Clone, Copy, Debug, PartialEq, Eq)]
pub enum DecodeError {
    /// The sixteen bytes of slot `slot` do not all lie inside the image.
    TruncatedTable { slot: usize },
    /// A string pointer of slot `slot` names no place in the image: it lies
    /// below the start of the image or beyond its end.
    PointerOutOfImage { slot: usize, pointer: u32 },
    /// The description of slot `slot` has more bytes than the Shift-JIS
    /// decoder can take.
    DescriptionTooLong { slot: usize },
    /// The resource name of slot `slot` is not UTF-8.
    InvalidResourceName { slot: usize },
}

/// The slot that an error names.
pub open spec fn spec_error_slot(error: DecodeError) -> usize {
    match error {
        DecodeError::TruncatedTable { slot } => slot,
        DecodeError::PointerOutOfImage { slot, .. } => slot,
        DecodeError::DescriptionTooLong { slot } => slot,
        DecodeError::InvalidResourceName { slot } => slot,
    }
}

/// The text of an optional string.
pub open spec fn spec_text(text: Option<String>) -> Option<Seq<char>> {
    match text {
        Some(s) => Some(s@),
        None => None,
    }
}

impl View for GimmickTable {
    type V = GimmickTableView;

    open spec fn view(&self) -> GimmickTableView {
        GimmickTableView {
            description: spec_text(self.description),
            resource_name: spec_text(self.resource_name),
            build_function_address: self.build_function_address,
            is_common: self.is_common,
        }
    }
}

/// The fields that the bytes `raw` of a slot hold: three big-endian words at
/// offsets 0, 4 and 8, and the flag byte at offset 12. A slot too short to
/// hold the flag byte has the flag zero.
pub open spec fn spec_raw_entry(raw: Seq<u8>) -> RawEntry
    recommends
        raw.len() >= 12,
{
    RawEntry {
        description_address: spec_be_u32(raw.subrange(0, 4)) as u32,
        resource_name_address: spec_be_u32(raw.subrange(4, 8)) as u32,
        build_function_address: spec_be_u32(raw.subrange(8, 12)) as u32,
        flag: if raw.len() > 12 {
            raw[12]
        } else {
            0
        },
    }
}

/// Whether `pointer` names a place in the image: a byte of it, or its end.
pub open spec fn spec_pointer_in_image(image: Seq<u8>, pointer: u32) -> bool {
    MEM8_BEGIN <= pointer && spec_file_offset(pointer as int) <= image.len()
}

/// The bytes of the zero-terminated string that `pointer` names.
pub open spec fn spec_pointed_string(image: Seq<u8>, pointer: u32) -> Seq<u8> {
    spec_c_string(image, spec_file_offset(pointer as int))
}

/// Whether a string field can be read: it is absent, or its pointer names a
/// place in the image.
pub open spec fn spec_field_in_image(image: Seq<u8>, pointer: u32) -> bool {
    pointer == 0 || spec_pointer_in_image(image, pointer)
}

/// Whether the description that `pointer` names is short enough to decode:
/// it is absent, or its bytes are no more than the decoder can take.
pub open spec fn spec_description_fits(image: Seq<u8>, pointer: u32) -> bool {
    pointer == 0 || spec_fits_decoder(spec_pointed_string(image, pointer).len())
}

/// The description of an entry whose description pointer is `pointer`.
pub open spec fn spec_entry_description(image: Seq<u8>, pointer: u32) -> Option<Seq<char>> {
    if pointer == 0 {
        None
    } else {
        Some(spec_description(spec_pointed_string(image, pointer)))
    }
}

/// The resource name of an entry whose resource name pointer is `pointer`.
pub open spec fn spec_entry_resource_name(image: Seq<u8>, pointer: u32) -> Option<Seq<char>> {
    if pointer == 0 {
        None
    } else {
        Some(decode_utf8(spec_pointed_string(image, pointer)))
    }
}

/// What the fields `raw` of slot `slot` decode to. The description is read
/// first, then the resource name; the first of them that cannot be read
/// gives the error.
pub open spec fn spec_decode_entry(image: Seq<u8>, slot: usize, raw: RawEntry) -> Result<
    GimmickTableView,
    DecodeError,
> {
    if !spec_field_in_image(image, raw.description_address) {
        Err(DecodeError::PointerOutOfImage { slot, pointer: raw.description_address })
    } else if !spec_description_fits(image, raw.description_address) {
        Err(DecodeError::DescriptionTooLong { slot })
    } else if !spec_field_in_image(image, raw.resource_name_address) {
        Err(DecodeError::PointerOutOfImage { slot, pointer: raw.resource_name_address })
    } else if raw.resource_name_address != 0 && !valid_utf8(
        spec_pointed_string(image, raw.resource_name_address),
    ) {
        Err(DecodeError::InvalidResourceName { slot })
    } else {
        Ok(
            GimmickTableView {
                description: spec_entry_description(image, raw.description_address),
                resource_name: spec_entry_resource_name(image, raw.resource_name_address),
                build_function_address: raw.build_function_address,
                is_common: raw.flag != 0,
            },
        )
    }
}

/// Whether all sixteen bytes of slot `slot` lie inside the image.
pub open spec fn spec_slot_in_image(image: Seq<u8>, slot: int) -> bool {
    spec_slot_offset(slot) + GIMMICK_TABLE_SIZE <= image.len()
}

/// The sixteen bytes of slot `slot`.
pub open spec fn spec_slot_bytes(image: Seq<u8>, slot: int) -> Seq<u8> {
    image.subrange(spec_slot_offset(slot), spec_slot_offset(slot) + GIMMICK_TABLE_SIZE)
}

/// What slot `slot` of the image decodes to.
pub open spec fn spec_decode_slot(image: Seq<u8>, slot: int) -> Result<
    GimmickTableView,
    DecodeError,
> {
    if !spec_slot_in_image(image, slot) {
        Err(DecodeError::TruncatedTable { slot: slot as usize })
    } else {
        spec_decode_entry(image, slot as usize, spec_raw_entry(spec_slot_bytes(image, slot)))
    }
}

/// Every slot before `count` decodes.
pub open spec fn spec_slots_decode(image: Seq<u8>, count: int) -> bool {
    forall|slot: int| 0 <= slot < count ==> (#[trigger] spec_decode_slot(image, slot)) is Ok
}

/// The entries of a decoded table as plain values.
pub open spec fn spec_entries(entries: Seq<GimmickTable>) -> Seq<GimmickTableView> {
    Seq::new(entries.len(), |k: int| entries[k]@)
}

/// The image decodes to `entries`: one entry for each slot of the table, in
/// slot order, each what its slot decodes to.
pub open spec fn spec_table_decodes_to(image: Seq<u8>, entries: Seq<GimmickTableView>) -> bool {
    &&& entries.len() == NUM_TABLE_ENTRIES
    &&& forall|slot: int|
        0 <= slot < NUM_TABLE_ENTRIES ==> #[trigger] spec_decode_slot(image, slot) == Ok::<
            GimmickTableView,
            DecodeError,
        >(entries[slot])
}

/// Decoding the image fails with `error`: it is the error of the first slot
/// that does not decode.
pub open spec fn spec_table_fails_with(image: Seq<u8>, error: DecodeError) -> bool {
    exists|slot: int|
        0 <= slot < NUM_TABLE_ENTRIES && #[trigger] spec_decode_slot(image, slot) == Err::<
            GimmickTableView,
            DecodeError,
        >(error) && spec_slots_decode(image, slot)
}

/// Whether the fields `raw` decode: both string fields can be read, the
/// description is short enough for the decoder, and the resource name, where
/// there is one, is UTF-8. What the bytes of the description are plays no
/// part in it, only how many they are.
pub open spec fn spec_entry_decodes(image: Seq<u8>, raw: RawEntry) -> bool {
    &&& spec_field_in_image(image, raw.description_address)
    &&& spec_description_fits(image, raw.description_address)
    &&& spec_field_in_image(image, raw.resource_name_address)
    &&& raw.resource_name_address != 0 ==> valid_utf8(
        spec_pointed_string(image, raw.resource_name_address),
    )
}

/// An entry decodes exactly when its string fields can be read, its
/// description is short enough for the decoder and its resource name is
/// UTF-8. An entry that does not decode names its own slot in the error. The
/// error tells of a pointer only where a pointer names no place in the
/// image, and it tells of a text wherever both pointers can be followed.
pub proof fn lemma_entry_decodes(image: Seq<u8>, slot: usize, raw: RawEntry)
    ensures
        spec_decode_entry(image, slot, raw) is Ok <==> spec_entry_decodes(image, raw),
        spec_decode_entry(image, slot, raw) matches Err(error) ==> spec_error_slot(error) == slot,
        spec_decode_entry(image, slot, raw) matches Err(error) ==> !(error is TruncatedTable),
        spec_decode_entry(image, slot, raw) matches Err(error) ==> (error is PointerOutOfImage
            ==> !spec_field_in_image(image, raw.description_address) || !spec_field_in_image(
            image,
            raw.resource_name_address,
        )),
        spec_decode_entry(image, slot, raw) matches Err(error) ==> (spec_field_in_image(
            image,
            raw.description_address,
        ) && spec_field_in_image(image, raw.resource_name_address) ==> error is DescriptionTooLong
            || error is InvalidResourceName),
{
}

/// An entry whose description pointer is zero has no description, whatever
/// the image holds: where it decodes, its description is absent, which is
/// neither the empty text nor the error marker.
pub proof fn lemma_absent_description(image: Seq<u8>, slot: usize, raw: RawEntry)
    requires
        raw.description_address == 0,
    ensures
        spec_description_fits(image, raw.description_address),
        spec_field_in_image(image, raw.description_address),
        spec_decode_entry(image, slot, raw) matches Ok(entry) ==> entry.description is None,
        spec_decode_entry(image, slot, raw) matches Ok(entry) ==> entry.description != Some(
            Seq::<char>::empty(),
        ) && entry.description != Some(spec_decode_error_marker()),
{
}

/// An entry whose description pointer is not zero has, where it decodes, the
/// description that the decoder makes of the bytes from the pointer up to
/// the first zero byte or the end of the image: the decoder's text itself
/// where no sequence is malformed, the error marker and nothing else where
/// one is.
pub proof fn lemma_present_description(image: Seq<u8>, slot: usize, raw: RawEntry)
    requires
        raw.description_address != 0,
        spec_decode_entry(image, slot, raw) is Ok,
    ensures
        ({
            let bytes = spec_pointed_string(image, raw.description_address);
            let entry = spec_decode_entry(image, slot, raw)->Ok_0;
            &&& entry.description is Some
            &&& !shift_jis_decoded(bytes).1 ==> entry.description == Some(
                shift_jis_decoded(bytes).0,
            )
            &&& shift_jis_decoded(bytes).1 ==> entry.description == Some(
                spec_decode_error_marker(),
            )
        }),
{
}

/// What the bytes of a description are decides nothing but the description:
/// two images whose slots hold the same fields, and in which the description
/// has the same length and the resource name the same bytes, decode alike or
/// fail alike, and where they decode they differ in the description at most.
/// So a description that does not decode stops neither its entry nor the
/// table.
pub proof fn lemma_description_bytes_decide_nothing_else(
    image: Seq<u8>,
    other: Seq<u8>,
    slot: usize,
    raw: RawEntry,
)
    requires
        spec_field_in_image(image, raw.description_address) == spec_field_in_image(
            other,
            raw.description_address,
        ),
        spec_field_in_image(image, raw.resource_name_address) == spec_field_in_image(
            other,
            raw.resource_name_address,
        ),
        spec_pointed_string(image, raw.description_address).len() == spec_pointed_string(
            other,
            raw.description_address,
        ).len(),
        spec_pointed_string(image, raw.resource_name_address) == spec_pointed_string(
            other,
            raw.resource_name_address,
        ),
    ensures
        spec_decode_entry(image, slot, raw) is Ok <==> spec_decode_entry(other, slot, raw) is Ok,
        spec_decode_entry(image, slot, raw) matches Err(error) ==> spec_decode_entry(
            other,
            slot,
            raw,
        ) == Err::<GimmickTableView, DecodeError>(error),
        spec_decode_entry(image, slot, raw) matches Ok(entry) ==> ({
            let twin = spec_decode_entry(other, slot, raw)->Ok_0;
            &&& twin.resource_name == entry.resource_name
            &&& twin.build_function_address == entry.build_function_address
            &&& twin.is_common == entry.is_common
            &&& twin.description is None <==> entry.description is None
        }),
{
}

/// A slot that lies inside the image has every slot before it inside the
/// image too.
pub proof fn lemma_slots_in_image(image: Seq<u8>, slot: int, earlier: int)
    requires
        0 <= earlier <= slot,
        spec_slot_in_image(image, slot),
    ensures
        spec_slot_in_image(image, earlier),
{
    assert(earlier * GIMMICK_TABLE_SIZE <= slot * GIMMICK_TABLE_SIZE) by (nonlinear_arith)
        requires
            earlier <= slot,
    ;
}

/// Where slot `slot` fails with `error` and every slot before it decodes,
/// the table fails with `error` and with no other error, and decodes to
/// nothing.
pub proof fn lemma_first_failure(image: Seq<u8>, slot: int, error: DecodeError)
    requires
        0 <= slot < NUM_TABLE_ENTRIES,
        spec_decode_slot(image, slot) == Err::<GimmickTableView, DecodeError>(error),
        spec_slots_decode(image, slot),
    ensures
        spec_table_fails_with(image, error),
        forall|other: DecodeError| spec_table_fails_with(image, other) ==> other == error,
        forall|entries: Seq<GimmickTableView>| !spec_table_decodes_to(image, entries),
{
    assert forall|other: DecodeError| spec_table_fails_with(image, other) implies other
        == error by {
        let at = choose|at: int|
            0 <= at < NUM_TABLE_ENTRIES && #[trigger] spec_decode_slot(image, at) == Err::<
                GimmickTableView,
                DecodeError,
            >(other) && spec_slots_decode(image, at);
        if at < slot {
            assert(spec_decode_slot(image, at) is Ok);
        } else if slot < at {
            assert(spec_decode_slot(image, slot) is Ok);
        }
    }
    assert forall|entries: Seq<GimmickTableView>| !spec_table_decodes_to(image, entries) by {
        if spec_table_decodes_to(image, entries) {
            assert(spec_decode_slot(image, slot) is Ok);
        }
    }
}

/// A table has one outcome: it decodes to at most one sequence of entries,
/// fails with at most one error, and does not do both.
pub proof fn lemma_table_outcome_unique(image: Seq<u8>)
    ensures
        forall|a: Seq<GimmickTableView>, b: Seq<GimmickTableView>|
            spec_table_decodes_to(image, a) && spec_table_decodes_to(image, b) ==> a == b,
        forall|a: DecodeError, b: DecodeError|
            spec_table_fails_with(image, a) && spec_table_fails_with(image, b) ==> a == b,
        forall|a: Seq<GimmickTableView>, b: DecodeError|
            !(spec_table_decodes_to(image, a) && spec_table_fails_with(image, b)),
{
    assert forall|a: Seq<GimmickTableView>, b: Seq<GimmickTableView>|
        spec_table_decodes_to(image, a) && spec_table_decodes_to(image, b) implies a == b by {
        assert forall|k: int| 0 <= k < a.len() implies a[k] == b[k] by {
            assert(spec_decode_slot(image, k) == Ok::<GimmickTableView, DecodeError>(a[k]));
            assert(spec_decode_slot(image, k) == Ok::<GimmickTableView, DecodeError>(b[k]));
        }
        assert(a =~= b);
    }
    assert forall|a: DecodeError| spec_table_fails_with(image, a) implies (forall|
        b: DecodeError,
    |
        spec_table_fails_with(image, b) ==> a == b) && (forall|entries: Seq<GimmickTableView>|
        !spec_table_decodes_to(image, entries)) by {
        let at = choose|at: int|
            0 <= at < NUM_TABLE_ENTRIES && #[trigger] spec_decode_slot(image, at) == Err::<
                GimmickTableView,
                DecodeError,
            >(a) && spec_slots_decode(image, at);
        lemma_first_failure(image, at, a);
    }
}

/// An image that ends before the end of the table does not decode. It fails
/// at the first slot that reaches past its end, unless an earlier slot fails
/// by itself; so the error tells of an offset outside the image, or of a
/// text in a slot that lies wholly inside the image.
pub proof fn lemma_truncated_image_fails(image: Seq<u8>)
    requires
        image.len() < spec_table_end_offset(),
    ensures
        !spec_slots_decode(image, NUM_TABLE_ENTRIES as int),
        forall|entries: Seq<GimmickTableView>| !spec_table_decodes_to(image, entries),
        forall|error: DecodeError|
            spec_table_fails_with(image, error) ==> error is TruncatedTable
                || error is PointerOutOfImage || spec_slot_in_image(
                image,
                spec_error_slot(error) as int,
            ),
        forall|slot: int|
            0 <= slot < NUM_TABLE_ENTRIES && !spec_slot_in_image(image, slot) && spec_slots_decode(
                image,
                slot,
            ) ==> spec_table_fails_with(image, DecodeError::TruncatedTable { slot: slot as usize }),
{
    let last = NUM_TABLE_ENTRIES - 1;
    assert(!spec_slot_in_image(image, last));
    assert(spec_decode_slot(image, last) is Err);
    assert forall|entries: Seq<GimmickTableView>| !spec_table_decodes_to(image, entries) by {
        if spec_table_decodes_to(image, entries) {
            assert(spec_decode_slot(image, last) is Ok);
        }
    }
    assert forall|error: DecodeError| spec_table_fails_with(image, error) implies error
        is TruncatedTable || error is PointerOutOfImage || spec_slot_in_image(
        image,
        spec_error_slot(error) as int,
    ) by {
        let at = choose|at: int|
            0 <= at < NUM_TABLE_ENTRIES && #[trigger] spec_decode_slot(image, at) == Err::<
                GimmickTableView,
                DecodeError,
            >(error) && spec_slots_decode(image, at);
        if spec_slot_in_image(image, at) {
            lemma_entry_decodes(image, at as usize, spec_raw_entry(spec_slot_bytes(image, at)));
        }
    }
    assert forall|slot: int|
        0 <= slot < NUM_TABLE_ENTRIES && !spec_slot_in_image(image, slot) && spec_slots_decode(
            image,
            slot,
        ) implies spec_table_fails_with(
        image,
        DecodeError::TruncatedTable { slot: slot as usize },
    ) by {
        lemma_first_failure(image, slot, DecodeError::TruncatedTable { slot: slot as usize });
    }
}

impl RawEntry {
    /// Reads the fields of a slot from its bytes. `None` when `raw` is too
    /// short to hold the three words, that is shorter than twelve bytes. The
    /// flag byte is taken as zero where `raw` ends before it.
    pub fn parse(raw: &[u8]) -> (entry: Option<RawEntry>)
        ensures
            entry is Some <==> raw@.len() >= 12,
            entry matches Some(e) ==> e == spec_raw_entry(raw@),
    {
        let description_address = match be_u32_at(raw, 0) {
            Some(word) => word,
            None => { return None; },
        };
        let resource_name_address = match be_u32_at(raw, 4) {
            Some(word) => word,
            None => { return None; },
        };
        let build_function_address = match be_u32_at(raw, 8) {
            Some(word) => word,
            None => { return None; },
        };
        let flag: u8 = if raw.len() > 12 {
            raw[12]
        } else {
            0
        };
        Some(RawEntry { description_address, resource_name_address, build_function_address, flag })
    }

    /// Whether the flag byte marks the gimmick as common: any value but zero
    /// does.
    pub fn is_common(&self) -> (common: bool)
        ensures
            common <==> self.flag != 0,
    {
        self.flag != 0
    }
}

/// Copies an optional string.
fn clone_text(text: &Option<String>) -> (copy: Option<String>)
    ensures
        copy == *text,
{
    match text {
        Some(s) => Some(s.clone()),
        None => None,
    }
}

impl Clone for GimmickTable {
    fn clone(&self) -> (copy: Self)
        ensures
            copy == *self,
    {
        GimmickTable {
            description: clone_text(&self.description),
            resource_name: clone_text(&self.resource_name),
            build_function_address: self.build_function_address,
            is_common: self.is_common,
        }
    }
}

impl GimmickTable {
    /// The address of the build function, or `None` where the slot stores
    /// zero.
    pub fn build_function(&self) -> (address: Option<u32>)
        ensures
            address is None <==> self.build_function_address == 0,
            address matches Some(a) ==> a == self.build_function_address,
    {
        if self.build_function_address == 0 {
            None
        } else {
            Some(self.build_function_address)
        }
    }
}

impl DecodeError {
    /// Whether the error tells of an offset outside the image, as opposed to
    /// text that does not decode.
    pub fn is_bounds_error(&self) -> (bounds: bool)
        ensures
            bounds <==> self is TruncatedTable || self is PointerOutOfImage,
    {
        match self {
            DecodeError::TruncatedTable { .. } => true,
            DecodeError::PointerOutOfImage { .. } => true,
            DecodeError::DescriptionTooLong { .. } => false,
            DecodeError::InvalidResourceName { .. } => false,
        }
    }

    /// The slot at which decoding stopped.
    pub fn slot(&self) -> (slot: usize)
        ensures
            slot == spec_error_slot(*self),
    {
        match self {
            DecodeError::TruncatedTable { slot } => *slot,
            DecodeError::PointerOutOfImage { slot, .. } => *slot,
            DecodeError::DescriptionTooLong { slot } => *slot,
            DecodeError::InvalidResourceName { slot } => *slot,
        }
    }
}

/// Collects the zero-terminated string that `pointer` names. `None` when the
/// pointer names no place in the image.
pub fn read_pointed_string(image: &[u8], pointer: u32) -> (bytes: Option<Vec<u8>>)
    ensures
        bytes is Some <==> spec_pointer_in_image(image@, pointer),
        bytes matches Some(b) ==> b@ == spec_pointed_string(image@, pointer),
        bytes matches Some(b) ==> b@.len() <= image@.len(),
{
    match pointer_to_file(pointer) {
        Some(offset) => read_c_string(image, offset),
        None => None,
    }
}

/// Reads the fields of slot `slot`. `None` when the sixteen bytes of the slot
/// do not all lie inside the image.
pub fn read_slot(image: &[u8], slot: usize) -> (entry: Option<RawEntry>)
    requires
        slot < NUM_TABLE_ENTRIES,
    ensures
        entry is Some <==> spec_slot_in_image(image@, slot as int),
        entry matches Some(e) ==> e == spec_raw_entry(spec_slot_bytes(image@, slot as int)),
{
    let offset = slot_offset(slot);
    if offset > image.len() || image.len() - offset < GIMMICK_TABLE_SIZE {
        None
    } else {
        let raw = slice_subrange(image, offset, offset + GIMMICK_TABLE_SIZE);
        RawEntry::parse(raw)
    }
}

/// Decodes the fields of slot `slot` into an entry.
///
/// An absent description or resource name, pointer zero, stays absent. A
/// description is decoded as Shift-JIS, and bytes that do not decode give
/// the error marker as its text; one with more bytes than the decoder can
/// take fails. A resource name is decoded as UTF-8, and bytes that do not
/// decode fail. A pointer that names no place in the image fails. The
/// description is read first.
pub fn decode_entry(image: &[u8], slot: usize, raw: &RawEntry) -> (entry: Result<
    GimmickTable,
    DecodeError,
>)
    ensures
        match entry {
            Ok(e) => spec_decode_entry(image@, slot, *raw) == Ok::<GimmickTableView, DecodeError>(
                e@,
            ),
            Err(error) => spec_decode_entry(image@, slot, *raw) == Err::<
                GimmickTableView,
                DecodeError,
            >(error),
        },
        entry is Ok <==> spec_entry_decodes(image@, *raw),
        entry matches Ok(e) ==> (e.description is None <==> raw.description_address == 0),
        entry matches Ok(e) ==> raw.description_address != 0 ==> e@.description == Some(
            spec_description(spec_pointed_string(image@, raw.description_address)),
        ),
        entry matches Ok(e) ==> raw.resource_name_address != 0 ==> e@.resource_name == Some(
            decode_utf8(spec_pointed_string(image@, raw.resource_name_address)),
        ),
        entry matches Ok(e) ==> (e.resource_name is None <==> raw.resource_name_address == 0),
        entry matches Ok(e) ==> e.build_function_address == raw.build_function_address,
        entry matches Ok(e) ==> (e.is_common <==> raw.flag != 0),
        entry matches Err(error) ==> spec_error_slot(error) == slot,
{
    let description = if raw.description_address != 0 {
        match read_pointed_string(image, raw.description_address) {
            Some(bytes) => match decode_description(bytes) {
                Some(text) => Some(text),
                None => {
                    return Err(DecodeError::DescriptionTooLong { slot });
                },
            },
            None => {
                return Err(
                    DecodeError::PointerOutOfImage { slot, pointer: raw.description_address },
                );
            },
        }
    } else {
        None
    };
    let resource_name = if raw.resource_name_address != 0 {
        match read_pointed_string(image, raw.resource_name_address) {
            Some(bytes) => match resource_name_text(bytes) {
                Some(name) => Some(name),
                None => {
                    return Err(DecodeError::InvalidResourceName { slot });
                },
            },
            None => {
                return Err(
                    DecodeError::PointerOutOfImage { slot, pointer: raw.resource_name_address },
                );
            },
        }
    } else {
        None
    };
    Ok(
        GimmickTable {
            description,
            resource_name,
            build_function_address: raw.build_function_address,
            is_common: raw.is_common(),
        },
    )
}

/// Decodes slot `slot` of the image.
pub fn decode_slot(image: &[u8], slot: usize) -> (entry: Result<GimmickTable, DecodeError>)
    requires
        slot < NUM_TABLE_ENTRIES,
    ensures
        match entry {
            Ok(e) => spec_decode_slot(image@, slot as int) == Ok::<GimmickTableView, DecodeError>(
                e@,
            ),
            Err(error) => spec_decode_slot(image@, slot as int) == Err::<
                GimmickTableView,
                DecodeError,
            >(error),
        },
{
    match read_slot(image, slot) {
        Some(raw) => decode_entry(image, slot, &raw),
        None => Err(DecodeError::TruncatedTable { slot }),
    }
}

/// Decodes the whole table: one entry for each of its slots, in slot order.
///
/// Decoding goes slot by slot and stops at the first slot that fails, with
/// that slot's error; no entry is left out or skipped. An image that ends
/// before the end of the table never decodes.
pub fn decode_table(image: &[u8]) -> (table: Result<Vec<GimmickTable>, DecodeError>)
    ensures
        match table {
            Ok(entries) => spec_table_decodes_to(image@, spec_entries(entries@)),
            Err(error) => spec_table_fails_with(image@, error),
        },
        table matches Ok(entries) ==> entries@.len() == NUM_TABLE_ENTRIES,
        table is Ok <==> spec_slots_decode(image@, NUM_TABLE_ENTRIES as int),
        image@.len() < spec_table_end_offset() ==> table is Err,
{
    let mut entries: Vec<GimmickTable> = Vec::new();
    let mut slot: usize = 0;
    while slot < NUM_TABLE_ENTRIES
        invariant
            slot <= NUM_TABLE_ENTRIES,
            entries@.len() == slot,
            forall|k: int|
                0 <= k < slot ==> #[trigger] spec_decode_slot(image@, k) == Ok::<
                    GimmickTableView,
                    DecodeError,
                >(entries@[k]@),
        decreases NUM_TABLE_ENTRIES - slot,
    {
        match decode_slot(image, slot) {
            Ok(entry) => {
                entries.push(entry);
            },
            Err(error) => {
                assert(spec_slots_decode(image@, slot as int));
                assert(!spec_slots_decode(image@, NUM_TABLE_ENTRIES as int)) by {
                    assert(spec_decode_slot(image@, slot as int) is Err);
                }
                return Err(error);
            },
        }
        slot = slot + 1;
    }
    proof {
        assert(spec_table_decodes_to(image@, spec_entries(entries@)));
        if image@.len() < spec_table_end_offset() {
            assert(spec_decode_slot(image@, NUM_TABLE_ENTRIES - 1) is Ok);
        }
    }
    Ok(entries)
}

} // verus!
