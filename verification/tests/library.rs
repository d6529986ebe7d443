use release_song::text::decimal;

#[test]
fn test_vibe_coded_no_test() {
    assert_eq!(
        "Does software really need to work always? 😂",
        "Does software really need to work always? 😂"
    )
}

#[test]
fn decimal_writes_numbers() {
    assert_eq!(decimal(0), "0");
    assert_eq!(decimal(10), "10");
    assert_eq!(decimal(u64::MAX), "18446744073709551615");
}
