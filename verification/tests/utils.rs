use ministore::utils::humansize_to_integer;

#[test]
fn converting_kmg_should_success() {
    assert_eq!(humansize_to_integer(&"20k".to_string()).unwrap(), 20 * 1024);
    assert_eq!(humansize_to_integer(&"20K".to_string()).unwrap(), 20 * 1024);

    assert_eq!(
        humansize_to_integer(&"10m".to_string()).unwrap(),
        10 * 1024 * 1024
    );
    assert_eq!(
        humansize_to_integer(&"10M".to_string()).unwrap(),
        10 * 1024 * 1024
    );

    assert_eq!(
        humansize_to_integer(&"6g".to_string()).unwrap(),
        6 * 1024 * 1024 * 1024
    );
    assert_eq!(
        humansize_to_integer(&"6G".to_string()).unwrap(),
        6 * 1024 * 1024 * 1024
    );

    assert_eq!(humansize_to_integer(&"100000".to_string()).unwrap(), 100000);
}

#[test]
fn converting_rejects_strings_without_digits() {
    assert!(humansize_to_integer(&"".to_string()).is_err());
    assert!(humansize_to_integer(&"k".to_string()).is_err());
    assert!(humansize_to_integer(&"abc".to_string()).is_err());
}

#[test]
fn converting_rejects_non_numeric_prefixes() {
    assert!(humansize_to_integer(&"12x34k".to_string()).is_err());
    assert!(humansize_to_integer(&"-5k".to_string()).is_err());
    assert!(humansize_to_integer(&"1 000".to_string()).is_err());
}

#[test]
fn converting_rejects_values_too_large_for_u64() {
    assert!(humansize_to_integer(&"18446744073709551616".to_string()).is_err());
    assert!(humansize_to_integer(&"18446744073709551615".to_string()).is_ok());
    assert!(humansize_to_integer(&"18014398509481984g".to_string()).is_err());
}

#[test]
fn converting_strips_every_trailing_letter() {
    // The multiplier comes from the last character even when several
    // letters follow the digits.
    assert_eq!(humansize_to_integer(&"20kk".to_string()).unwrap(), 20 * 1024);
    assert_eq!(humansize_to_integer(&"7kg".to_string()).unwrap(), 7 * 1024 * 1024 * 1024);
}
