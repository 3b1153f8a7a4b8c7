use sourcify_extractor::text::{decimal_string, eq_ignoring_case};

#[test]
fn decimal_of_small_numbers() {
    assert_eq!(decimal_string(0), "0");
    assert_eq!(decimal_string(7), "7");
    assert_eq!(decimal_string(9), "9");
    assert_eq!(decimal_string(10), "10");
    assert_eq!(decimal_string(11155111), "11155111");
}

#[test]
fn decimal_of_the_largest_number() {
    assert_eq!(decimal_string(u64::MAX), "18446744073709551615");
}

#[test]
fn decimal_agrees_with_std() {
    for n in [1u64, 42, 100, 1000, 1234567890, 9999999999999999999] {
        assert_eq!(decimal_string(n), n.to_string());
    }
}

#[test]
fn case_of_ascii_letters_is_ignored() {
    assert!(eq_ignoring_case("Solidity", "solidity"));
    assert!(eq_ignoring_case("SOLIDITY", "solidity"));
    assert!(eq_ignoring_case("sOlIdItY", "SoLiDiTy"));
    assert!(eq_ignoring_case("", ""));
}

#[test]
fn other_differences_are_not_ignored() {
    assert!(!eq_ignoring_case("Vyper", "solidity"));
    assert!(!eq_ignoring_case("solidity ", "solidity"));
    assert!(!eq_ignoring_case("solidit", "solidity"));
    assert!(!eq_ignoring_case("s0lidity", "solidity"));
    assert!(!eq_ignoring_case("@", "`"));
    assert!(!eq_ignoring_case("[", "{"));
    assert!(!eq_ignoring_case("\u{e9}", "\u{c9}"));
}
