use whisperfish::contact::{normalize_number, format_helper, Contact, ContactModel, Country, FormatMode};

#[test]
fn known_and_unknown_regions() {
    assert!(Country::from_code("FI").is_some());
    assert!(Country::from_code("US").is_some());
    assert!(Country::from_code("XX").is_none());
    assert!(Country::from_code("fi").is_none());
}

#[test]
fn format_helper_writes_valid_numbers() {
    assert_eq!(
        format_helper("FI", "040 1234567", FormatMode::E164),
        Some("+358401234567".to_string())
    );
    assert_eq!(format_helper("XX", "040 1234567", FormatMode::E164), None);
    assert_eq!(format_helper("FI", "not a number", FormatMode::E164), None);
    let national = format_helper("FI", "+358401234567", FormatMode::National).unwrap();
    assert!(national.starts_with('0'));
}

#[test]
fn format_normalises_typed_numbers() {
    assert_eq!(normalize_number("FI", "  040 1234567  "), "+358401234567");
    assert_eq!(normalize_number("FI", "+358401234567"), "+358401234567");
    assert_eq!(normalize_number("FI", "358401234567"), "+358401234567");
    assert_eq!(normalize_number("FI", "   "), "");
    assert_eq!(normalize_number("FI", "+0"), "");
    assert_eq!(normalize_number("XX", "040 1234567"), "");
}

#[test]
fn name_lookup_keys_and_fallback() {
    let model = ContactModel::new();
    let lookup = model.name_lookup("FI", " 040 1234567 ");
    assert_eq!(lookup.source, "040 1234567");
    assert_eq!(lookup.e164, "+358401234567");
    assert!(!lookup.national.contains(' '));
    assert!(lookup.national.starts_with('0'));
    let lookup2 = model.name_lookup("FI", "hello");
    assert_eq!(lookup2.e164, "");
    assert_eq!(lookup2.national, "");
    assert_eq!(model.name(lookup2, None), "hello");
    assert_eq!(model.name(lookup, Some("Alice".to_string())), "Alice");
}

#[test]
fn contact_rows() {
    let mut model = ContactModel::new();
    assert_eq!(model.row_count(), 0);
    model.content.push(Contact { name: "Alice".into(), tel: "+358401234567".into() });
    assert_eq!(model.row_count(), 1);
    assert_eq!(model.format("FI", "0401234567"), "+358401234567");
}
