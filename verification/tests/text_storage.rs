use moto_workshop::domain::inventory::StockMovementType;
use moto_workshop::domain::service_visit::ServiceVisitStatus;
use moto_workshop::domain::service_visit_part::ServiceVisitPartStatus;
use moto_workshop::storage::{
    literal_substring_pattern, movement_type_name, parse_movement_type, parse_part_status,
    parse_visit_status, part_status_name, visit_status_name,
};
use moto_workshop::text::{
    check_text, int_to_text, join2, join3, join4, join5, trim_text, zero_padded_chars, TextFault,
};

#[test]
fn trimming_removes_unicode_whitespace_at_both_ends() {
    let (text, chars) = trim_text("\u{3000}\t Ali  Hassan \n\u{a0}");
    assert_eq!(text, "Ali  Hassan");
    assert_eq!(chars.iter().collect::<String>(), "Ali  Hassan");
    let (text, chars) = trim_text(" \n ");
    assert_eq!(text, "");
    assert!(chars.is_empty());
}

#[test]
fn trimming_twice_changes_nothing() {
    let (once, _) = trim_text("  x y \t");
    let (twice, _) = trim_text(&once);
    assert_eq!(once, twice);
}

#[test]
fn whitespace_property_is_the_unicode_table() {
    let listed = |u: u32| {
        (0x09..=0x0d).contains(&u)
            || u == 0x20
            || u == 0x85
            || u == 0xa0
            || u == 0x1680
            || (0x2000..=0x200a).contains(&u)
            || u == 0x2028
            || u == 0x2029
            || u == 0x202f
            || u == 0x205f
            || u == 0x3000
    };
    let mut buffer = [0u8; 4];
    for u in 0..=0x10ffffu32 {
        if let Some(c) = char::from_u32(u) {
            let (text, _) = trim_text(c.encode_utf8(&mut buffer));
            assert_eq!(text.is_empty(), listed(u), "code point {u:x}");
        }
    }
}

#[test]
fn joined_texts_keep_their_order() {
    assert_eq!(join2("mot", "ö"), "motö");
    assert_eq!(join3("a", "", "c"), "ac");
    assert_eq!(join4("Service ", "Visit ", "7", "."), "Service Visit 7.");
    assert_eq!(join5("1", "2", "3", "4", "5"), "12345");
}

#[test]
fn check_text_reports_length_before_controls() {
    let long: Vec<char> = "ab\u{1}".chars().collect();
    assert_eq!(check_text(&long, 2, false), Some(TextFault::TooLong));
    assert_eq!(check_text(&long, 3, true), Some(TextFault::ForbiddenControl));
    let formatted: Vec<char> = "a\r\n\tb".chars().collect();
    assert_eq!(check_text(&formatted, 5, true), None);
    assert_eq!(check_text(&formatted, 5, false), Some(TextFault::ForbiddenControl));
    let c1: Vec<char> = "a\u{85}".chars().collect();
    assert_eq!(check_text(&c1, 5, true), Some(TextFault::ForbiddenControl));
}

#[test]
fn integers_print_in_decimal() {
    assert_eq!(int_to_text(0), "0");
    assert_eq!(int_to_text(1_234_500), "1234500");
    assert_eq!(int_to_text(-42), "-42");
    assert_eq!(int_to_text(i64::MIN), "-9223372036854775808");
    assert_eq!(zero_padded_chars(42, 6).iter().collect::<String>(), "000042");
    assert_eq!(zero_padded_chars(1_234_567, 6).iter().collect::<String>(), "1234567");
}

#[test]
fn visit_status_names_round_trip() {
    for status in [
        ServiceVisitStatus::Open,
        ServiceVisitStatus::ReadyForPickup,
        ServiceVisitStatus::Closed,
        ServiceVisitStatus::Cancelled,
    ] {
        assert_eq!(parse_visit_status(visit_status_name(status)), Some(status));
    }
    assert_eq!(visit_status_name(ServiceVisitStatus::ReadyForPickup), "READY_FOR_PICKUP");
    assert_eq!(parse_visit_status("open"), None);
    assert_eq!(parse_visit_status("OPEN "), None);
    assert_eq!(parse_visit_status(""), None);
}

#[test]
fn part_status_names_round_trip() {
    for status in [ServiceVisitPartStatus::Active, ServiceVisitPartStatus::Voided] {
        assert_eq!(parse_part_status(part_status_name(status)), Some(status));
    }
    assert_eq!(part_status_name(ServiceVisitPartStatus::Voided), "VOIDED");
    assert_eq!(parse_part_status("DELETED"), None);
}

#[test]
fn movement_type_names_round_trip() {
    for movement_type in [
        StockMovementType::OpeningStock,
        StockMovementType::Purchase,
        StockMovementType::AdjustmentIn,
        StockMovementType::AdjustmentOut,
    ] {
        assert_eq!(parse_movement_type(movement_type_name(movement_type)), Some(movement_type));
    }
    assert_eq!(movement_type_name(StockMovementType::AdjustmentOut), "ADJUSTMENT_OUT");
    assert_eq!(parse_movement_type("ADJUSTMENT"), None);
}

#[test]
fn like_pattern_escapes_wildcards() {
    assert_eq!(literal_substring_pattern("ali"), "%ali%");
    assert_eq!(literal_substring_pattern("50%_off\\"), "%50\\%\\_off\\\\%");
    assert_eq!(literal_substring_pattern(""), "%%");
}
