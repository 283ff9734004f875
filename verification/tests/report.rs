use gimmick_table::report::{
    header_row, hex_upper, none_marker, render_address, render_flag, render_report, render_row,
    render_text,
};
use gimmick_table::table::GimmickTable;

#[test]
fn hex_of_zero_is_one_digit() {
    assert_eq!(hex_upper(0), "0x0");
}

#[test]
fn hex_has_no_leading_zeros() {
    assert_eq!(hex_upper(1), "0x1");
    assert_eq!(hex_upper(9), "0x9");
    assert_eq!(hex_upper(10), "0xA");
    assert_eq!(hex_upper(15), "0xF");
    assert_eq!(hex_upper(16), "0x10");
    assert_eq!(hex_upper(255), "0xFF");
    assert_eq!(hex_upper(256), "0x100");
    assert_eq!(hex_upper(434), "0x1B2");
}

#[test]
fn hex_is_upper_case() {
    assert_eq!(hex_upper(0xABCDEF), "0xABCDEF");
    assert_eq!(hex_upper(0x1234567890), "0x1234567890");
}

#[test]
fn hex_keeps_the_high_bits() {
    assert_eq!(hex_upper(0x80000000), "0x80000000");
    assert_eq!(hex_upper(0xFFFFFFFF), "0xFFFFFFFF");
    assert_eq!(hex_upper(0x8083B468), "0x8083B468");
    assert_eq!(hex_upper(u64::MAX), "0xFFFFFFFFFFFFFFFF");
}

#[test]
fn hex_agrees_with_the_standard_formatter() {
    let mut value: u64 = 1;
    for _ in 0..200 {
        assert_eq!(hex_upper(value), format!("0x{:X}", value));
        value = value.wrapping_mul(6364136223846793005).wrapping_add(1442695040888963407);
    }
    for small in 0..600u64 {
        assert_eq!(hex_upper(small), format!("0x{:X}", small));
    }
}

#[test]
fn absent_and_empty_text_show_the_placeholder() {
    assert_eq!(none_marker(), "<none>");
    assert_eq!(render_text(&None), "<none>");
    assert_eq!(render_text(&Some(String::new())), "<none>");
}

#[test]
fn text_is_shown_as_it_is() {
    assert_eq!(render_text(&Some(String::from("GmkSpring"))), "GmkSpring");
    assert_eq!(render_text(&Some(String::from("\u{30D0}\u{30CD}"))), "\u{30D0}\u{30CD}");
    assert_eq!(render_text(&Some(String::from("<DECODE_ERROR>"))), "<DECODE_ERROR>");
    assert_eq!(render_text(&Some(String::from(" "))), " ");
}

#[test]
fn address_zero_shows_the_placeholder() {
    assert_eq!(render_address(0), "<none>");
}

#[test]
fn address_is_shown_in_hexadecimal() {
    assert_eq!(render_address(0x80123ABC), "0x80123ABC");
    assert_eq!(render_address(0xFFFFFFFF), "0xFFFFFFFF");
    assert_eq!(render_address(1), "0x1");
    assert_eq!(render_address(0x80000000), "0x80000000");
}

#[test]
fn flag_is_shown_as_a_word() {
    assert_eq!(render_flag(true), "true");
    assert_eq!(render_flag(false), "false");
}

#[test]
fn header_names_the_five_columns() {
    assert_eq!(
        header_row(),
        vec!["Gimmick ID", "Name", "Resource Name", "Build Function Address", "Common?"]
    );
}

#[test]
fn row_of_a_full_entry() {
    let entry = GimmickTable {
        description: Some(String::from("\u{52D5}\u{304F}\u{5E8A}")),
        resource_name: Some(String::from("GmkMoveFloor")),
        build_function_address: 0x80123ABC,
        is_common: true,
    };
    assert_eq!(
        render_row(0x1A, &entry),
        vec!["0x1A", "\u{52D5}\u{304F}\u{5E8A}", "GmkMoveFloor", "0x80123ABC", "true"]
    );
}

#[test]
fn row_of_an_absent_entry() {
    let entry = GimmickTable {
        description: None,
        resource_name: None,
        build_function_address: 0,
        is_common: false,
    };
    assert_eq!(render_row(0, &entry), vec!["0x0", "<none>", "<none>", "<none>", "false"]);
}

#[test]
fn report_has_a_header_and_one_row_for_each_entry() {
    let entries = vec![
        GimmickTable {
            description: Some(String::from("<DECODE_ERROR>")),
            resource_name: Some(String::new()),
            build_function_address: 0xFFFFFFFF,
            is_common: true,
        },
        GimmickTable {
            description: None,
            resource_name: Some(String::from("GmkB")),
            build_function_address: 0,
            is_common: false,
        },
    ];
    let rows = render_report(&entries);
    assert_eq!(rows.len(), 3);
    assert_eq!(rows[0], header_row());
    assert_eq!(rows[1], vec!["0x0", "<DECODE_ERROR>", "<none>", "0xFFFFFFFF", "true"]);
    assert_eq!(rows[2], vec!["0x1", "<none>", "GmkB", "<none>", "false"]);
}

#[test]
fn report_of_no_entries_is_the_header_alone() {
    let rows = render_report(&Vec::new());
    assert_eq!(rows.len(), 1);
    assert_eq!(rows[0], header_row());
}
