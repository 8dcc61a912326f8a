use branchfy::text::{contains, decimal_string, starts_with, two_digit_string};

#[test]
fn starts_with_cases() {
    assert!(starts_with("feat/x", "feat"));
    assert!(starts_with("feat", "feat"));
    assert!(starts_with("x", ""));
    assert!(!starts_with("fea", "feat"));
    assert!(!starts_with("fix/x", "feat"));
}

#[test]
fn contains_cases() {
    assert!(contains("/usr/bin/zsh", "zsh"));
    assert!(contains("zsh", "zsh"));
    assert!(!contains("/bin/bash", "zsh"));
    assert!(!contains("zs", "zsh"));
    assert!(contains("abc", ""));
}

#[test]
fn decimal_cases() {
    assert_eq!(decimal_string(0), "0");
    assert_eq!(decimal_string(7), "7");
    assert_eq!(decimal_string(10), "10");
    assert_eq!(decimal_string(4294967295), "4294967295");
    assert_eq!(two_digit_string(5), "05");
    assert_eq!(two_digit_string(59), "59");
    assert_eq!(two_digit_string(123), "123");
}
