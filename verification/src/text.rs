//! Turning the bytes of a string into text: Shift-JIS for descriptions,
//! UTF-8 for resource names.

use std::string::FromUtf8Error;
use vstd::prelude::*;
use vstd::utf8::{decode_utf8, valid_utf8};

verus! {

/// What `encoding_rs::SHIFT_JIS.decode_without_bom_handling` makes of
/// `bytes`: the text that they spell in Shift-JIS, and whether any byte
/// sequence in them was malformed. Every byte is read as Shift-JIS: no
/// leading byte order mark switches the decoder to another encoding. The
/// result depends on the bytes alone.
pub uninterp spec fn shift_jis_decoded(bytes: Seq<u8>) -> (Seq<char>, bool);

/// The text that stands for a description whose bytes did not decode.
pub open spec fn spec_decode_error_marker() -> Seq<char> {
    seq!['<', 'D', 'E', 'C', 'O', 'D', 'E', '_', 'E', 'R', 'R', 'O', 'R', '>']
}

/// The description made of a decoding's outcome: the decoded text as it is,
/// or the error marker in place of all of it where a sequence was malformed.
pub open spec fn spec_description_text(decoded: Seq<char>, had_errors: bool) -> Seq<char> {
    if had_errors {
        spec_decode_error_marker()
    } else {
        decoded
    }
}

/// The description that the bytes `bytes` give.
pub open spec fn spec_description(bytes: Seq<u8>) -> Seq<char> {
    spec_description_text(shift_jis_decoded(bytes).0, shift_jis_decoded(bytes).1)
}

/// Whether a string of `len` bytes can be handed to the Shift-JIS decoder.
/// The decoder reserves up to three bytes of output for each byte of input,
/// and may do so twice over; the sum has to fit in one allocation. A
/// sixteenth of the address space leaves room for that on every machine.
pub open spec fn spec_fits_decoder(len: nat) -> bool {
    len <= usize::MAX / 16
}

/// Tells whether a string of `len` bytes can be handed to the Shift-JIS
/// decoder.
pub fn fits_decoder(len: usize) -> (fits: bool)
    ensures
        fits == spec_fits_decoder(len as nat),
{
    len <= usize::MAX / 16
}

/// Decodes `bytes` as Shift-JIS, whatever they start with.
///
/// Calls `encoding_rs::Encoding::decode_without_bom_handling` on
/// `encoding_rs::SHIFT_JIS`, the decoder that looks for no byte order mark.
/// Trusted: that the text and the error flag which it returns are a function
/// of the bytes alone; nothing is claimed of what they are. The call panics
/// where the size of its output buffer overflows, which `requires` leaves
/// out.
#[verifier::external_body]
fn shift_jis_decode(bytes: &[u8]) -> (outcome: (String, bool))
    requires
        spec_fits_decoder(bytes@.len()),
    ensures
        (outcome.0@, outcome.1) == shift_jis_decoded(bytes@),
{
    let (text, had_errors) = encoding_rs::SHIFT_JIS.decode_without_bom_handling(bytes);
    (text.into_owned(), had_errors)
}

/// The error of `String::from_utf8`, `std::string::FromUtf8Error`: carried
/// through, never read.
#[verifier::external_type_specification]
#[verifier::external_body]
pub struct ExFromUtf8Error(FromUtf8Error);

/// Contract of `String::from_utf8`, trusted and not proved: it succeeds on
/// exactly the byte vectors that are valid UTF-8, and the string then holds
/// the characters that the bytes encode. Nothing is claimed of the error.
pub assume_specification[ String::from_utf8 ](vec: Vec<u8>) -> (text: Result<
    String,
    FromUtf8Error,
>)
    ensures
        text is Ok <==> valid_utf8(vec@),
        text matches Ok(s) ==> s@ == decode_utf8(vec@),
;

/// Makes the description of a decoding's outcome: `decoded` itself where the
/// decoder met no malformed sequence, and otherwise the text `<DECODE_ERROR>`
/// in place of the whole field.
pub fn description_text(decoded: String, had_errors: bool) -> (text: String)
    ensures
        text@ == spec_description_text(decoded@, had_errors),
        had_errors ==> text@ == spec_decode_error_marker(),
        !had_errors ==> text@ == decoded@,
{
    if had_errors {
        proof {
            reveal_strlit("<DECODE_ERROR>");
        }
        let marker = "<DECODE_ERROR>".to_string();
        assert(marker@ =~= spec_decode_error_marker());
        marker
    } else {
        decoded
    }
}

/// Decodes the Shift-JIS bytes of a description. Malformed bytes do not
/// fail: they give the text `<DECODE_ERROR>` in place of all of it. The
/// bytes must be no more than the decoder can take; `decode_description`
/// takes any.
pub fn shift_jis_to_utf8(raw_bytes: Vec<u8>) -> (text: String)
    requires
        spec_fits_decoder(raw_bytes@.len()),
    ensures
        text@ == spec_description(raw_bytes@),
        !shift_jis_decoded(raw_bytes@).1 ==> text@ == shift_jis_decoded(raw_bytes@).0,
        shift_jis_decoded(raw_bytes@).1 ==> text@ == spec_decode_error_marker(),
{
    let (decoded, had_errors) = shift_jis_decode(raw_bytes.as_slice());
    description_text(decoded, had_errors)
}

/// Decodes the Shift-JIS bytes of a description of any length. `None` when
/// the bytes are more than the decoder can take, and only then; what the
/// bytes are makes no difference to that.
pub fn decode_description(raw_bytes: Vec<u8>) -> (text: Option<String>)
    ensures
        text is Some <==> spec_fits_decoder(raw_bytes@.len()),
        text matches Some(t) ==> t@ == spec_description(raw_bytes@),
        text matches Some(t) ==> (!shift_jis_decoded(raw_bytes@).1 ==> t@ == shift_jis_decoded(
            raw_bytes@,
        ).0),
        text matches Some(t) ==> (shift_jis_decoded(raw_bytes@).1 ==> t@
            == spec_decode_error_marker()),
{
    if fits_decoder(raw_bytes.len()) {
        Some(shift_jis_to_utf8(raw_bytes))
    } else {
        None
    }
}

/// Decodes the bytes of a resource name, which must be UTF-8. `None` when
/// they are not: a resource name has no stand-in text.
pub fn resource_name_text(raw_bytes: Vec<u8>) -> (text: Option<String>)
    ensures
        text is Some <==> valid_utf8(raw_bytes@),
        text matches Some(s) ==> s@ == decode_utf8(raw_bytes@),
{
    match String::from_utf8(raw_bytes) {
        Ok(s) => Some(s),
        Err(_) => None,
    }
}

} // verus!
