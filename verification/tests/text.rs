use bakoel_super_admin::text::{safe_id, strip};

#[test]
fn safe_id_keeps_letters_digits_and_hyphens() {
    assert_eq!(safe_id("wd-0042-AbC"), "wd-0042-AbC");
}

#[test]
fn safe_id_drops_everything_else() {
    assert_eq!(safe_id("../etc/passwd"), "etcpasswd");
    assert_eq!(safe_id("1' OR '1'='1; --"), "1OR11--");
    assert_eq!(safe_id("a_b c\t%2F\u{0}"), "abc2F");
    assert_eq!(safe_id(""), "");
    assert_eq!(safe_id("/.\\"), "");
}

#[test]
fn safe_id_keeps_letters_beyond_ascii() {
    assert_eq!(safe_id("k\u{e9}\u{4eac}\u{2460}\u{1f49d}"), "k\u{e9}\u{4eac}\u{2460}");
}

#[test]
fn safe_id_is_idempotent() {
    let once = safe_id("a/b-c.d");
    assert_eq!(safe_id(&once), once);
}

#[test]
fn strip_finds_what_is_behind_a_prefix() {
    assert_eq!(strip("Bearer abc", "Bearer "), Some("abc"));
    assert_eq!(strip("Bearer ", "Bearer "), Some(""));
    assert_eq!(strip("Bearer", "Bearer "), None);
    assert_eq!(strip("bearer abc", "Bearer "), None);
    assert_eq!(strip("", ""), Some(""));
    assert_eq!(strip("\u{e9}t\u{e9}", "\u{e9}"), Some("t\u{e9}"));
}
