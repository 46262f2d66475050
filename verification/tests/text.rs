use wallcove::text::{contains, str_eq, to_ascii_lowercase, trim};

#[test]
fn lowercase_only_touches_ascii_letters() {
    assert_eq!(to_ascii_lowercase("KDE Plasma-6 ÄÖ"), "kde plasma-6 ÄÖ");
}

#[test]
fn substring_search() {
    assert!(contains("ubuntu:kde", "kde"));
    assert!(contains("abc", ""));
    assert!(!contains("kd", "kde"));
    assert!(!contains("plasm", "plasma"));
}

#[test]
fn trimming_whitespace() {
    assert_eq!(trim("  a b \n"), "a b");
    assert_eq!(trim("\u{3000}x\u{a0}"), "x");
    assert_eq!(trim(" \t "), "");
    assert_eq!(trim("y"), "y");
    assert_eq!(trim("  héllo  "), "héllo".trim());
}

#[test]
fn equality_by_characters() {
    assert!(str_eq("png", "png"));
    assert!(!str_eq("png", "pn"));
    assert!(!str_eq("png", "PNG"));
}
