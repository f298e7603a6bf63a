use migrate_to_uv::text::{push_decimal, replace, str_eq};

#[test]
fn replace_every_occurrence() {
    assert_eq!(replace("requirements.in", ".in", ".txt"), "requirements.txt");
    assert_eq!(replace("a.in/b.in", ".in", ".txt"), "a.txt/b.txt");
    assert_eq!(replace("requirements.txt", ".in", ".txt"), "requirements.txt");
    assert_eq!(replace("aaa", "aa", "b"), "ba");
    assert_eq!(replace("", ".in", ".txt"), "");
    assert_eq!(replace("dev.index.in", ".in", ".txt"), "dev.txtdex.txt");
}

#[test]
fn decimal_rendering() {
    let mut s = String::from("v");
    push_decimal(&mut s, 0);
    assert_eq!(s, "v0");
    let mut s = String::new();
    push_decimal(&mut s, 18446744073709551616);
    assert_eq!(s, "18446744073709551616");
}

#[test]
fn string_equality() {
    assert!(str_eq("poetry", "poetry"));
    assert!(!str_eq("poetry", "poetr"));
    assert!(!str_eq("", "a"));
}

#[test]
fn replace_empty_pattern_as_std_does() {
    assert_eq!(replace("ab", "", "x"), "ab".replace("", "x"));
    assert_eq!(replace("", "", "x"), "x");
}
