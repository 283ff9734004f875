//! The report: one row of text for each decoded entry, under a header row.

use crate::table::{GimmickTable, GimmickTableView};
use crate::text::spec_decode_error_marker;
use vstd::prelude::*;
use vstd::string::StringExecFns;

verus! {

/// The sixteen hexadecimal digits, upper case, in the order of their values.
pub open spec fn spec_hex_alphabet() -> Seq<char> {
    seq!['0', '1', '2', '3', '4', '5', '6', '7', '8', '9', 'A', 'B', 'C', 'D', 'E', 'F']
}

/// The hexadecimal digits of `value`, most significant first, without
/// leading zeros; zero is the single digit `0`.
pub open spec fn spec_hex_digits(value: nat) -> Seq<char>
    decreases value,
{
    if value < 16 {
        seq![spec_hex_alphabet()[value as int]]
    } else {
        spec_hex_digits(value / 16).push(spec_hex_alphabet()[(value % 16) as int])
    }
}

/// `value` in hexadecimal behind the prefix `0x`.
pub open spec fn spec_hex(value: nat) -> Seq<char> {
    seq!['0', 'x'] + spec_hex_digits(value)
}

/// The value of one hexadecimal digit.
pub open spec fn spec_hex_digit_value(digit: char) -> nat {
    if digit as u32 <= '9' as u32 {
        (digit as u32 - '0' as u32) as nat
    } else {
        (digit as u32 - 'A' as u32 + 10) as nat
    }
}

/// The number that a string of hexadecimal digits spells.
pub open spec fn spec_hex_value(digits: Seq<char>) -> nat
    decreases digits.len(),
{
    if digits.len() == 0 {
        0
    } else {
        16 * spec_hex_value(digits.drop_last()) + spec_hex_digit_value(digits.last())
    }
}

/// The text that stands for an absent field.
pub open spec fn spec_none_marker() -> Seq<char> {
    seq!['<', 'n', 'o', 'n', 'e', '>']
}

/// The header of the report.
pub open spec fn spec_header_row() -> Seq<Seq<char>> {
    seq![
        "Gimmick ID"@,
        "Name"@,
        "Resource Name"@,
        "Build Function Address"@,
        "Common?"@,
    ]
}

/// How a text field is shown: the text itself, or the placeholder where the
/// field is absent or empty.
pub open spec fn spec_render_text(text: Option<Seq<char>>) -> Seq<char> {
    match text {
        Some(t) => if t.len() == 0 {
            spec_none_marker()
        } else {
            t
        },
        None => spec_none_marker(),
    }
}

/// How a build function address is shown: in hexadecimal, or the placeholder
/// where it is zero.
pub open spec fn spec_render_address(address: u32) -> Seq<char> {
    if address == 0 {
        spec_none_marker()
    } else {
        spec_hex(address as nat)
    }
}

/// How the flag is shown.
pub open spec fn spec_render_flag(flag: bool) -> Seq<char> {
    if flag {
        seq!['t', 'r', 'u', 'e']
    } else {
        seq!['f', 'a', 'l', 's', 'e']
    }
}

/// The row of the entry at position `index` of the table: its position in
/// hexadecimal, its description, its resource name, the address of its build
/// function, and its flag.
pub open spec fn spec_row(index: nat, entry: GimmickTableView) -> Seq<Seq<char>> {
    seq![
        spec_hex(index),
        spec_render_text(entry.description),
        spec_render_text(entry.resource_name),
        spec_render_address(entry.build_function_address),
        spec_render_flag(entry.is_common),
    ]
}

/// The texts of a row.
pub open spec fn spec_row_text(row: Seq<String>) -> Seq<Seq<char>> {
    Seq::new(row.len(), |k: int| row[k]@)
}

/// An absent text is shown as the placeholder, which is neither the empty
/// text nor the marker of a description that did not decode.
pub proof fn lemma_absent_text_is_shown_as_none()
    ensures
        spec_render_text(None) == spec_none_marker(),
        spec_none_marker() != Seq::<char>::empty(),
        spec_none_marker() != spec_decode_error_marker(),
{
    assert(spec_none_marker().len() == 6);
    assert(spec_decode_error_marker().len() == 14);
}

/// The digits of a number spell that number: no bit of it is lost in
/// rendering, and different numbers render differently.
pub proof fn lemma_hex_value(value: nat)
    ensures
        spec_hex_value(spec_hex_digits(value)) == value,
    decreases value,
{
    let digit = spec_hex_alphabet()[(value % 16) as int];
    assert(spec_hex_digit_value(digit) == value % 16);
    if value < 16 {
        let digits = spec_hex_digits(value);
        assert(digits.drop_last() =~= Seq::<char>::empty());
        assert(spec_hex_value(digits.drop_last()) == 0);
    } else {
        lemma_hex_value(value / 16);
        let digits = spec_hex_digits(value);
        assert(digits.drop_last() =~= spec_hex_digits(value / 16));
        assert(digits.last() == digit);
    }
}

/// The digits of a number other than zero do not start with the digit `0`,
/// and no number has an empty rendering.
pub proof fn lemma_hex_no_leading_zero(value: nat)
    ensures
        spec_hex_digits(value).len() >= 1,
        value > 0 ==> spec_hex_digits(value)[0] != '0',
    decreases value,
{
    if value >= 16 {
        lemma_hex_no_leading_zero(value / 16);
    }
}

/// A 32-bit number has at most eight digits.
pub proof fn lemma_hex_width(value: nat)
    requires
        value <= u32::MAX,
    ensures
        spec_hex_digits(value).len() <= 8,
{
    reveal_with_fuel(spec_hex_digits, 9);
}

/// The digit of a value below sixteen, as a string of one character.
fn hex_digit(value: u8) -> (digit: &'static str)
    requires
        value < 16,
    ensures
        digit@ == seq![spec_hex_alphabet()[value as int]],
{
    proof {
        reveal_strlit("0");
        reveal_strlit("1");
        reveal_strlit("2");
        reveal_strlit("3");
        reveal_strlit("4");
        reveal_strlit("5");
        reveal_strlit("6");
        reveal_strlit("7");
        reveal_strlit("8");
        reveal_strlit("9");
        reveal_strlit("A");
        reveal_strlit("B");
        reveal_strlit("C");
        reveal_strlit("D");
        reveal_strlit("E");
        reveal_strlit("F");
    }
    let digit = match value {
        0 => "0",
        1 => "1",
        2 => "2",
        3 => "3",
        4 => "4",
        5 => "5",
        6 => "6",
        7 => "7",
        8 => "8",
        9 => "9",
        10 => "A",
        11 => "B",
        12 => "C",
        13 => "D",
        14 => "E",
        _ => "F",
    };
    assert(digit@ =~= seq![spec_hex_alphabet()[value as int]]);
    digit
}

/// Appends the hexadecimal digits of `value` to `text`.
fn push_hex_digits(text: &mut String, value: u64)
    ensures
        final(text)@ == old(text)@ + spec_hex_digits(value as nat),
    decreases value,
{
    if value >= 16 {
        push_hex_digits(text, value / 16);
    }
    text.append(hex_digit((value % 16) as u8));
    assert(final(text)@ =~= old(text)@ + spec_hex_digits(value as nat));
}

/// Renders `value` in upper-case hexadecimal behind the prefix `0x`, without
/// leading zeros.
pub fn hex_upper(value: u64) -> (text: String)
    ensures
        text@ == spec_hex(value as nat),
{
    proof {
        reveal_strlit("0x");
    }
    let mut text = "0x".to_string();
    assert(text@ =~= seq!['0', 'x']);
    push_hex_digits(&mut text, value);
    text
}

/// The placeholder `<none>`.
pub fn none_marker() -> (text: String)
    ensures
        text@ == spec_none_marker(),
{
    proof {
        reveal_strlit("<none>");
    }
    let text = "<none>".to_string();
    assert(text@ =~= spec_none_marker());
    text
}

/// Renders a description or a resource name: the text itself, or `<none>`
/// where the field is absent or its text is empty.
pub fn render_text(text: &Option<String>) -> (shown: String)
    ensures
        shown@ == spec_render_text(crate::table::spec_text(*text)),
{
    match text {
        Some(t) => {
            if t.as_str().is_empty() {
                none_marker()
            } else {
                t.clone()
            }
        },
        None => none_marker(),
    }
}

/// Renders a build function address: all 32 bits of it in hexadecimal, or
/// `<none>` where it is zero.
pub fn render_address(address: u32) -> (shown: String)
    ensures
        shown@ == spec_render_address(address),
        address != 0 ==> shown@ == spec_hex(address as nat),
        address == 0 ==> shown@ == spec_none_marker(),
{
    if address == 0 {
        none_marker()
    } else {
        hex_upper(address as u64)
    }
}

/// Renders the flag as `true` or `false`.
pub fn render_flag(flag: bool) -> (shown: String)
    ensures
        shown@ == spec_render_flag(flag),
{
    proof {
        reveal_strlit("true");
        reveal_strlit("false");
    }
    let shown = if flag {
        "true".to_string()
    } else {
        "false".to_string()
    };
    assert(shown@ =~= spec_render_flag(flag));
    shown
}

/// The header row of the report.
pub fn header_row() -> (row: Vec<String>)
    ensures
        spec_row_text(row@) == spec_header_row(),
{
    let mut row: Vec<String> = Vec::new();
    row.push("Gimmick ID".to_string());
    row.push("Name".to_string());
    row.push("Resource Name".to_string());
    row.push("Build Function Address".to_string());
    row.push("Common?".to_string());
    assert(spec_row_text(row@) =~= spec_header_row());
    row
}

/// The row of the entry at position `index` of the table.
pub fn render_row(index: usize, entry: &GimmickTable) -> (row: Vec<String>)
    ensures
        spec_row_text(row@) == spec_row(index as nat, entry@),
        row@.len() == 5,
{
    let mut row: Vec<String> = Vec::new();
    row.push(hex_upper(index as u64));
    row.push(render_text(&entry.description));
    row.push(render_text(&entry.resource_name));
    row.push(render_address(entry.build_function_address));
    row.push(render_flag(entry.is_common));
    assert(spec_row_text(row@) =~= spec_row(index as nat, entry@));
    row
}

/// The rows of the report: the header, then one row for each entry, in the
/// order of the entries.
pub fn render_report(entries: &Vec<GimmickTable>) -> (rows: Vec<Vec<String>>)
    ensures
        rows@.len() == entries@.len() + 1,
        spec_row_text(rows@[0]@) == spec_header_row(),
        forall|k: int|
            0 <= k < entries@.len() ==> spec_row_text(#[trigger] rows@[k + 1]@) == spec_row(
                k as nat,
                entries@[k]@,
            ),
{
    let mut rows: Vec<Vec<String>> = Vec::new();
    rows.push(header_row());
    let mut index: usize = 0;
    while index < entries.len()
        invariant
            index <= entries@.len(),
            rows@.len() == index + 1,
            spec_row_text(rows@[0]@) == spec_header_row(),
            forall|k: int|
                0 <= k < index ==> spec_row_text(#[trigger] rows@[k + 1]@) == spec_row(
                    k as nat,
                    entries@[k]@,
                ),
        decreases entries@.len() - index,
    {
        rows.push(render_row(index, &entries[index]));
        index = index + 1;
    }
    rows
}

} // verus!
