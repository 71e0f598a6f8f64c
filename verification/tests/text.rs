use cityissue::controllers::auth::normalize_email;
use cityissue::text::{same_text, trim};

#[test]
fn trim_removes_unicode_white_space_at_both_ends() {
    assert_eq!(trim("  a b  "), "a b");
    assert_eq!(trim("\t\n\u{0B}\u{0C}\r x \u{2003}"), "x");
    assert_eq!(trim("   "), "");
    assert_eq!(trim(""), "");
    assert_eq!(trim("abc"), "abc");
}

#[test]
fn email_normalization_lowercases_letters() {
    assert_eq!(normalize_email(" AbC-Ç@X.COM "), "abc-ç@x.com");
}

#[test]
fn same_text_compares_characters() {
    assert!(same_text("abc", "abc"));
    assert!(!same_text("abc", "abd"));
    assert!(!same_text("abc", "ab"));
    assert!(same_text("", ""));
}
