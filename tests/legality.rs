use fofo::legality::LegalityVerification as L;

#[test]
fn emails() {
    assert!(L::is_email("user@example.com"));
    assert!(L::is_email("a.b_c%d+e-f@sub.domain.org"));
    assert!(L::is_email("user@a.b.co"));
    assert!(L::is_email("user@example.comm"));
    assert!(!L::is_email("user@example.commas"));
    assert!(!L::is_email("user@example.c"));
    assert!(!L::is_email("user@example"));
    assert!(!L::is_email("@example.com"));
    assert!(!L::is_email("user@@example.com"));
    assert!(!L::is_email("user@.com"));
    assert!(!L::is_email("us er@example.com"));
    assert!(!L::is_email("user@exa_mple.com"));
    assert!(!L::is_email(""));
}

#[test]
fn usernames() {
    assert!(L::is_username("alice1"));
    assert!(L::is_username("abcde"));
    assert!(!L::is_username("abcd"));
    assert!(!L::is_username("Alice1"));
    assert!(!L::is_username("abc_de"));
    assert!(!L::is_username(""));
}

#[test]
fn passwords() {
    assert!(L::is_password("password1"));
    assert!(L::is_password("Ab1!Ab1!"));
    assert!(!L::is_password("Ab1!Ab1"));
    assert!(!L::is_password("password"));
    assert!(!L::is_password("12345678"));
    assert!(!L::is_password("pass 1234"));
    let longest = format!("{}1", "a".repeat(127));
    assert!(L::is_password(&longest));
    let too_long = format!("{}1", "a".repeat(128));
    assert!(!L::is_password(&too_long));
}

#[test]
fn titles_and_tags() {
    assert!(L::is_title("Hello"));
    assert!(L::is_title("a b"));
    assert!(!L::is_title(" Hello"));
    assert!(!L::is_title("\tHello"));
    assert!(!L::is_title("\u{3000}x"));
    assert!(!L::is_title(""));
    assert!(L::is_title(&"a".repeat(129)));
    assert!(!L::is_title(&"a".repeat(130)));
    assert!(!L::is_title("line\nbreak"));
    assert!(L::is_title("tab\tinside"));
    assert!(L::is_tag("rust"));
    assert!(!L::is_tag(" rust"));
}

#[test]
fn contents() {
    assert!(L::is_content(""));
    assert!(L::is_content(&"x".repeat(65535)));
    assert!(!L::is_content(&"x".repeat(65536)));
    assert!(!L::is_content(&"\u{e9}".repeat(32768)));
    assert!(L::is_content(&"\u{e9}".repeat(32767)));
}
