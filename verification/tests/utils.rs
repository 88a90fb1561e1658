use settleone_backend::utils::{format_address, is_valid_address, is_valid_ens};

#[test]
fn test_format_address() {
    let addr = "0xd8dA6BF26964aF9D7eEd9e03E53415D37aA96045";
    assert_eq!(format_address(addr, 4), "0xd8dA...6045");
}

#[test]
fn test_is_valid_address() {
    assert!(is_valid_address(
        "0xd8dA6BF26964aF9D7eEd9e03E53415D37aA96045"
    ));
    assert!(!is_valid_address("0xinvalid"));
    assert!(!is_valid_address("not_an_address"));
}

#[test]
fn test_is_valid_ens() {
    assert!(is_valid_ens("vitalik.eth"));
    assert!(is_valid_ens("my-name.eth"));
    assert!(!is_valid_ens("invalid"));
    assert!(!is_valid_ens("ab.eth")); // too short
}

#[test]
fn format_address_keeps_short_text_whole() {
    assert_eq!(format_address("0x1234", 4), "0x1234");
    assert_eq!(format_address("", 0), "");
    assert_eq!(format_address("0", 0), "0");
    assert_eq!(format_address("0x12345678", 4), "0x1234...5678");
    assert_eq!(format_address("0x123456789", 4), "0x1234...6789");
    assert_eq!(format_address("0x1234567", 4), "0x1234567");
}

#[test]
fn format_address_with_nothing_kept_shows_prefix_and_dots() {
    assert_eq!(format_address("0xabcdef", 0), "0x...");
    assert_eq!(format_address("0x", 0), "0x...");
}

#[test]
fn format_address_with_huge_count_keeps_text_whole() {
    let addr = "0xd8dA6BF26964aF9D7eEd9e03E53415D37aA96045";
    assert_eq!(format_address(addr, usize::MAX), addr);
    assert_eq!(format_address(addr, usize::MAX / 2), addr);
}

#[test]
fn format_address_cuts_by_bytes() {
    // Both cuts fall between characters: "é" takes two bytes.
    assert_eq!(format_address("é0123456789", 2), "é01...89");
}

#[test]
fn address_needs_prefix_length_and_hex() {
    let good = "0x0000000000000000000000000000000000000000";
    assert!(is_valid_address(good));
    assert!(is_valid_address("0xABCDEFabcdef0123456789ABCDEFabcdef012345"));
    // 41 and 43 characters
    assert!(!is_valid_address("0x000000000000000000000000000000000000000"));
    assert!(!is_valid_address("0x00000000000000000000000000000000000000000"));
    // upper-case prefix
    assert!(!is_valid_address("0X0000000000000000000000000000000000000000"));
    // a letter beyond f
    assert!(!is_valid_address("0x000000000000000000000000000000000000000g"));
    // 42 bytes, but not 42 characters
    assert!(!is_valid_address("0x00000000000000000000000000000000000000é"));
    // 42 characters, one of them not ASCII
    assert!(!is_valid_address("0x000000000000000000000000000000000000000é"));
    assert!(!is_valid_address(""));
}

#[test]
fn ens_name_needs_suffix_and_plain_label() {
    assert!(is_valid_ens("abc.eth"));
    assert!(is_valid_ens("A-9.eth"));
    assert!(!is_valid_ens("ab.eth"));
    assert!(!is_valid_ens(".eth"));
    assert!(!is_valid_ens("abc.ETH"));
    assert!(!is_valid_ens("sub.name.eth"));
    assert!(!is_valid_ens("na_me.eth"));
    assert!(!is_valid_ens("éé.eth"));
    assert!(!is_valid_ens("abcdefg"));
    assert!(!is_valid_ens(""));
}
