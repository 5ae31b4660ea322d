use whisperfish::client_profile::avatar_file_name;
use whisperfish::group_v2::{expected_v2_id_text, is_valid_hex, pending_v1_id};
use whisperfish::recipient::RecipientImpl;

#[test]
fn uuid_text_is_hyphenated_lowercase() {
    let u: u128 = 0xa1a2a3a4b1b2c1c2d1d2d3d4d5d6d7d8;
    assert_eq!(avatar_file_name(u), "a1a2a3a4-b1b2-c1c2-d1d2-d3d4d5d6d7d8");
    assert_eq!(avatar_file_name(0), "00000000-0000-0000-0000-000000000000");
}

#[test]
fn uuid_parses_back() {
    let u: u128 = 0x550e8400e29b41d4a716446655440000;
    let mut r = RecipientImpl::new();
    r.set_recipient_uuid("550e8400-e29b-41d4-a716-446655440000");
    assert_eq!(r.recipient_uuid, Some(u));
    r.set_recipient_uuid(&avatar_file_name(7));
    assert_eq!(r.recipient_uuid, Some(7));
    r.set_recipient_uuid("550e8400e29b41d4a716446655440000");
    assert_eq!(r.recipient_uuid, Some(u));
    r.set_recipient_uuid("not a uuid");
    assert_eq!(r.recipient_uuid, None);
    r.set_recipient_uuid("");
    assert_eq!(r.recipient_uuid, None);
}

#[test]
fn hex_texts() {
    assert!(is_valid_hex("00ff10Ab"));
    assert!(is_valid_hex(""));
    assert!(!is_valid_hex("abc"));
    assert!(!is_valid_hex("zz"));
    assert_eq!(expected_v2_id_text(&[0x00, 0xff, 0x10, 0xab]), "00ff10ab");
    assert_eq!(expected_v2_id_text(&[]), "");
}

#[test]
fn group_v1_ids() {
    let good = "000102030405060708090a0b0c0d0e0f";
    assert!(is_valid_hex(good));
    assert_eq!(pending_v1_id(good), Some((0u8..16).collect::<Vec<u8>>()));
    assert_eq!(pending_v1_id("000102030405060708090A0B0C0D0E0F"), Some((0u8..16).collect::<Vec<u8>>()));
    assert!(is_valid_hex("0001"));
    assert_eq!(pending_v1_id("0001"), None);
    assert!(!is_valid_hex("0g"));
    assert_eq!(expected_v2_id_text(&[0xde, 0xad, 0xbe, 0xef]), "deadbeef");
}

#[test]
fn hex_text_decodes_back() {
    let bytes: Vec<u8> = vec![0x00, 0x7f, 0x80, 0xff, 0x10, 0x01, 0xab, 0xcd, 0xef, 0x12, 0x34, 0x56, 0x78, 0x9a, 0xbc, 0xde];
    let text = expected_v2_id_text(&bytes);
    assert!(is_valid_hex(&text));
    assert_eq!(pending_v1_id(&text), Some(bytes));
}

#[test]
fn uuid_text_forms() {
    let u: u128 = 0x67e5504410b1426f9247bb680e5fe0c8;
    let mut r = RecipientImpl::new();
    for text in [
        "67e55044-10b1-426f-9247-bb680e5fe0c8",
        "67e5504410b1426f9247bb680e5fe0c8",
        "{67e55044-10b1-426f-9247-bb680e5fe0c8}",
        "urn:uuid:67e55044-10b1-426f-9247-bb680e5fe0c8",
        "URN:UUID:67E55044-10B1-426F-9247-BB680E5FE0C8",
    ] {
        r.set_recipient_uuid(text);
        assert_eq!(r.recipient_uuid, Some(u), "{}", text);
    }
    for text in [
        "67e55044-10b1-426f-9247-bb680e5fe0c",
        "(67e55044-10b1-426f-9247-bb680e5fe0c8)",
        "uri:uuid:67e55044-10b1-426f-9247-bb680e5fe0c8",
        "67e55044_10b1_426f_9247_bb680e5fe0c8",
        "67e5504410b1426f9247bb680e5fe0cg",
        "é7e5504410b1426f9247bb680e5fe0c8",
    ] {
        r.set_recipient_uuid(text);
        assert_eq!(r.recipient_uuid, None, "{}", text);
    }
}
