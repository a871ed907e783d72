use write_gate::connection::{split_accounts, white_space, ConnectionMetadata};

#[test]
fn the_list_drops_blanks_and_empty_entries_and_keeps_the_order() {
    assert_eq!(split_accounts(" DU2, ,DU1,"), ["DU2", "DU1"]);
    assert!(split_accounts("").is_empty());
    assert!(split_accounts(" , ").is_empty());
}

#[test]
fn blanks_inside_an_account_stay() {
    assert_eq!(split_accounts("\tDU 1 \u{a0},\u{3000}\u{e9}\u{2003}"), ["DU 1", "\u{e9}"]);
    assert_eq!(split_accounts(",,DU3"), ["DU3"]);
    assert_eq!(split_accounts("DU4"), ["DU4"]);
}

#[test]
fn a_list_splits_as_the_standard_library_would() {
    for list in ["a,b", " a , b ", "", ",", " ", "a", "\u{85}x\u{2028},\u{200b}y", ",a,,b,", "a,\n,b\r\n"] {
        let expected: Vec<String> =
            list.split(',').map(str::trim).filter(|entry| !entry.is_empty()).map(str::to_owned).collect();
        assert_eq!(split_accounts(list), expected, "{list:?}");
    }
}

#[test]
fn white_space_is_what_unicode_says() {
    for number in 0..=0x10ffff_u32 {
        if let Some(c) = char::from_u32(number) {
            assert_eq!(white_space(c), c.is_whitespace(), "{number:x}");
        }
    }
}

#[test]
fn joined_lists_keep_the_order() {
    let one = " DU5,,DU2 ";
    let other = "DU9, DU1";
    let mut expected = split_accounts(one);
    expected.extend(split_accounts(other));
    assert_eq!(split_accounts(&format!("{one},{other}")), expected);
    assert_eq!(expected, ["DU5", "DU2", "DU9", "DU1"]);
}

#[test]
fn every_account_is_clean() {
    for account in split_accounts(" a b,\t,c\n, d,e ,") {
        assert!(!account.is_empty());
        assert_eq!(account.trim(), account);
        assert!(!account.contains(','));
    }
}

#[test]
fn nothing_is_known_of_a_new_connection() {
    let metadata = ConnectionMetadata::default();
    assert_eq!((metadata.next_order_id, metadata.client_id, metadata.server_version), (0, 0, 0));
    assert_eq!(metadata.managed_accounts, "");
    assert!(metadata.connection_time.is_none());
    assert!(metadata.time_zone.is_none());
}
