use tx_report::text::{contains, decimal_string};

#[test]
fn decimal_of_small_and_large_numbers() {
    assert_eq!(decimal_string(0), "0");
    assert_eq!(decimal_string(7), "7");
    assert_eq!(decimal_string(10), "10");
    assert_eq!(decimal_string(101), "101");
    assert_eq!(decimal_string(u64::MAX), u64::MAX.to_string());
}

#[test]
fn decimal_reads_back() {
    for n in [0u64, 1, 9, 10, 99, 100, 12345, 18446744073709551615] {
        assert_eq!(decimal_string(n).parse::<u64>().unwrap(), n);
    }
}

#[test]
fn contains_finds_substrings() {
    assert!(contains("Wallet file verification failed. x", "Wallet file verification failed"));
    assert!(contains("Requested wallet does not exist or is not loaded", "not loaded"));
    assert!(contains("abc", ""));
    assert!(contains("abc", "abc"));
    assert!(contains("xxabc", "abc"));
    assert!(!contains("ab", "abc"));
    assert!(!contains("abd", "abc"));
    assert!(!contains("", "a"));
    assert!(contains("héllo wörld", "wö"));
}
