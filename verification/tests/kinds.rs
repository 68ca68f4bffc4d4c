use rustw_config::text::{eq_ignore_ascii_case, same_text, to_ascii_lower};
use rustw_config::{
    decode_enum_value, describe_kind, ConfigType, DecodeError, Enumeration, ValueKind,
};

fn enumeration(names: &[&str]) -> Enumeration {
    Enumeration { variants: names.iter().map(|name| name.to_string()).collect() }
}

#[test]
fn boolean_type_names_its_values() {
    assert_eq!(bool::get_variant_names(), "<boolean>");
}

#[test]
fn unsigned_type_names_its_values() {
    assert_eq!(usize::get_variant_names(), "<unsigned integer>");
}

#[test]
fn string_type_names_its_values() {
    assert_eq!(String::get_variant_names(), "<string>");
}

#[test]
fn scalar_kinds_are_described_by_fixed_literals() {
    assert_eq!(describe_kind(&ValueKind::Boolean), "<boolean>");
    assert_eq!(describe_kind(&ValueKind::UnsignedInteger), "<unsigned integer>");
    assert_eq!(describe_kind(&ValueKind::Text), "<string>");
}

#[test]
fn choices_are_described_in_declaration_order() {
    let kind = ValueKind::Choice(enumeration(&["Always", "Never", "Auto"]));
    assert_eq!(describe_kind(&kind), "[Always|Never|Auto]");
}

#[test]
fn a_single_choice_is_described_without_separator() {
    let kind = ValueKind::Choice(enumeration(&["Only"]));
    assert_eq!(describe_kind(&kind), "[Only]");
}

#[test]
fn no_choices_are_described_by_empty_brackets() {
    let kind = ValueKind::Choice(enumeration(&[]));
    assert_eq!(describe_kind(&kind), "[]");
}

#[test]
fn every_declared_name_decodes_to_its_own_variant() {
    let choices = enumeration(&["Always", "Never", "Auto"]);
    assert_eq!(decode_enum_value(&choices, "Always"), Ok(0));
    assert_eq!(decode_enum_value(&choices, "Never"), Ok(1));
    assert_eq!(decode_enum_value(&choices, "Auto"), Ok(2));
}

#[test]
fn decoding_ignores_ascii_case() {
    let choices = enumeration(&["First", "NVariant"]);
    assert_eq!(decode_enum_value(&choices, "nvariant"), Ok(1));
    assert_eq!(decode_enum_value(&choices, "NVARIANT"), Ok(1));
    assert_eq!(decode_enum_value(&choices, "nVaRiAnT"), Ok(1));
    assert_eq!(decode_enum_value(&choices, "FIRST"), Ok(0));
}

#[test]
fn an_unknown_name_is_rejected() {
    let choices = enumeration(&["Always", "Never", "Auto"]);
    assert_eq!(decode_enum_value(&choices, "not-a-real-variant"), Err(DecodeError::UnknownVariant));
}

#[test]
fn near_misses_are_rejected() {
    let choices = enumeration(&["Always", "Never"]);
    assert_eq!(decode_enum_value(&choices, ""), Err(DecodeError::UnknownVariant));
    assert_eq!(decode_enum_value(&choices, "Alway"), Err(DecodeError::UnknownVariant));
    assert_eq!(decode_enum_value(&choices, "Alwayss"), Err(DecodeError::UnknownVariant));
    assert_eq!(decode_enum_value(&choices, " Never"), Err(DecodeError::UnknownVariant));
}

#[test]
fn nothing_decodes_against_no_choices() {
    assert_eq!(decode_enum_value(&enumeration(&[]), "Any"), Err(DecodeError::UnknownVariant));
}

#[test]
fn the_first_matching_name_wins() {
    let choices = enumeration(&["Fast", "FAST", "fast"]);
    assert_eq!(decode_enum_value(&choices, "fast"), Ok(0));
    assert_eq!(decode_enum_value(&choices, "FAST"), Ok(0));
}

#[test]
fn only_ascii_letters_are_folded() {
    let choices = enumeration(&["École", "Straße"]);
    assert_eq!(decode_enum_value(&choices, "École"), Ok(0));
    assert_eq!(decode_enum_value(&choices, "ÉCOLE"), Ok(0));
    assert_eq!(decode_enum_value(&choices, "école"), Err(DecodeError::UnknownVariant));
    assert_eq!(decode_enum_value(&choices, "STRASSE"), Err(DecodeError::UnknownVariant));
    assert_eq!(decode_enum_value(&choices, "STRAßE"), Ok(1));
}

#[test]
fn characters_next_to_the_letters_are_not_folded() {
    assert!(!eq_ignore_ascii_case("@", "`"));
    assert!(!eq_ignore_ascii_case("[", "{"));
    assert!(eq_ignore_ascii_case("A-Z_09", "a-z_09"));
    assert!(eq_ignore_ascii_case("", ""));
    assert!(!eq_ignore_ascii_case("a", ""));
    assert!(!eq_ignore_ascii_case("", "a"));
}

#[test]
fn case_folding_agrees_with_the_standard_library() {
    let samples = ["", "a", "A", "Never", "NEVER", "never!", "é", "É", "Zz", "zZ", "[", "{"];
    for a in samples.iter() {
        for b in samples.iter() {
            assert_eq!(eq_ignore_ascii_case(a, b), a.eq_ignore_ascii_case(b));
        }
    }
}

#[test]
fn same_text_is_exact() {
    assert!(same_text("port", "port"));
    assert!(!same_text("port", "Port"));
    assert!(!same_text("port", "ports"));
    assert!(!same_text("ports", "port"));
    assert!(same_text("", ""));
    assert!(same_text("é", "é"));
}

#[test]
fn only_ascii_capitals_are_lowered() {
    assert_eq!(to_ascii_lower('A'), 'a');
    assert_eq!(to_ascii_lower('M'), 'm');
    assert_eq!(to_ascii_lower('Z'), 'z');
    assert_eq!(to_ascii_lower('a'), 'a');
    assert_eq!(to_ascii_lower('@'), '@');
    assert_eq!(to_ascii_lower('['), '[');
    assert_eq!(to_ascii_lower('7'), '7');
    assert_eq!(to_ascii_lower('É'), 'É');
    for c in ['A', 'Z', 'a', 'z', '@', '[', '`', '{', '0', 'É', 'ß'].iter() {
        assert_eq!(to_ascii_lower(*c), c.to_ascii_lowercase());
    }
}
