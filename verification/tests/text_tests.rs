use recordiary::text::{
    format_hex_fixed, format_owner_hyphenated, format_u64, get_diary_filename, str_eq,
};

#[test]
fn decimal_rendering_matches_std() {
    for n in [0u64, 1, 9, 10, 42, 99, 100, 1234567890, u64::MAX] {
        assert_eq!(format_u64(n), n.to_string());
    }
}

#[test]
fn hex_rendering_is_zero_padded() {
    assert_eq!(format_hex_fixed(0, 4), "0000");
    assert_eq!(format_hex_fixed(0xabc, 4), "0abc");
    assert_eq!(format_hex_fixed(0xdeadbeef, 8), "deadbeef");
    assert_eq!(format_hex_fixed(u128::MAX, 32), "f".repeat(32));
}

#[test]
fn owner_rendering_matches_the_uuid_crate() {
    let samples: [u128; 4] = [
        0,
        1,
        0x1234_5678_9abc_def0_1122_3344_5566_7788,
        u128::MAX,
    ];
    for n in samples {
        let expected = uuid::Uuid::from_u128(n).hyphenated().to_string();
        assert_eq!(format_owner_hyphenated(n), expected);
    }
}

#[test]
fn blob_key_embeds_owner_and_id_with_the_recording_extension() {
    let owner: u128 = 0x1234_5678_9abc_def0_1122_3344_5566_7788;
    let key = get_diary_filename(owner, 17);
    assert_eq!(key, "12345678-9abc-def0-1122-334455667788_17.m4a");
}

#[test]
fn blob_key_is_idempotent_per_owner_and_id() {
    let owner: u128 = 99;
    assert_eq!(get_diary_filename(owner, 5), get_diary_filename(owner, 5));
    assert_ne!(get_diary_filename(owner, 5), get_diary_filename(owner, 6));
    assert_ne!(get_diary_filename(owner, 5), get_diary_filename(100, 5));
}

#[test]
fn str_eq_compares_by_characters() {
    assert!(str_eq("", ""));
    assert!(str_eq("abc", "abc"));
    assert!(!str_eq("abc", "abd"));
    assert!(!str_eq("abc", "ab"));
    assert!(str_eq("한국어", "한국어"));
    assert!(!str_eq("한국어", "한국억"));
}
