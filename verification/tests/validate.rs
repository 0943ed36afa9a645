use kolloquy::validate::{
    is_match, is_valid_email, is_valid_handle, is_valid_password, is_valid_redirect,
};

#[test]
fn email_regex() -> Result<(), ()> {
    let email = "owne@r@ljpprojects.org";

    if is_valid_email(&email) {
        Err(())
    } else {
        Ok(())
    }
}

#[test]
fn plain_addresses_are_accepted() {
    assert!(is_valid_email("owner@ljpprojects.org"));
    assert!(is_valid_email("first.last@example.com"));
    assert!(!is_valid_email(""));
    assert!(!is_valid_email("no-at-sign.example.com"));
}

#[test]
fn handles_are_three_to_fifteen_characters() {
    assert!(is_valid_handle("abc"));
    assert!(is_valid_handle("@ljpprojects"));
    assert!(is_valid_handle("fifteen_chars_x"));
    assert!(!is_valid_handle("ab"));
    assert!(!is_valid_handle("sixteen_chars_xx"));
    assert!(!is_valid_handle("has space"));
}

#[test]
fn password_hashes_are_forty_three_characters_and_a_pad() {
    let hash = format!("{}=", "a".repeat(43));
    assert!(is_valid_password(&hash));
    assert!(!is_valid_password(&"a".repeat(44)));
    assert!(!is_valid_password(&format!("{}=", "a".repeat(42))));
    assert!(!is_valid_password(&format!("{}=", "-".repeat(43))));
}

#[test]
fn redirects_are_http_addresses() {
    assert!(is_valid_redirect("https://example.com/account"));
    assert!(is_valid_redirect("http://example.com"));
    assert!(!is_valid_redirect("ftp://example.com"));
    assert!(!is_valid_redirect("https://localhost"));
    assert!(!is_valid_redirect("javascript:alert(1)"));
}

#[test]
fn a_rejected_pattern_matches_nothing() {
    assert!(!is_match("foo(bar", "foo(bar"));
    assert!(is_match("^a+$", "aaa"));
    assert!(!is_match("^a+$", "aab"));
}
