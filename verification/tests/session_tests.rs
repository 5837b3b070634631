use peer_reviews::records::UserRow;
use peer_reviews::session::{is_signed_in, signout_user, Session, SessionCookies};

fn account(password: &str) -> UserRow {
    UserRow {
        id: 3,
        name: String::from("anna"),
        class: String::from("10a"),
        password: String::from(password),
        salt: 42,
        email: String::from("anna@example.com"),
        profile_pic: String::from("pic.png"),
        private: false,
    }
}

#[test]
fn session_needs_both_cookies() {
    let both = SessionCookies { name: Some(String::from("anna")), hash: Some(String::from("h")) };
    let s = both.session().unwrap();
    assert_eq!(s.name, "anna");
    assert_eq!(s.hash, "h");
    let only_name = SessionCookies { name: Some(String::from("anna")), hash: None };
    assert!(only_name.session().is_none());
    let only_hash = SessionCookies { name: None, hash: Some(String::from("h")) };
    assert!(only_hash.session().is_none());
}

#[test]
fn signout_removes_both_cookies() {
    let mut c = SessionCookies { name: Some(String::from("anna")), hash: Some(String::from("h")) };
    assert_eq!(signout_user(&mut c), "Success");
    assert!(c.name.is_none());
    assert!(c.hash.is_none());
    assert!(c.session().is_none());
}

#[test]
fn signed_in_compares_with_trimmed_stored_hash() {
    let s = Session { name: String::from("anna"), hash: String::from("$2b$hash") };
    assert!(is_signed_in(&s, &account("$2b$hash")));
    assert!(is_signed_in(&s, &account("  $2b$hash\n")));
    assert!(!is_signed_in(&s, &account("$2b$other")));
}
