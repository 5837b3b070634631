use peer_reviews::accounts::{
    account_details, check_registered_status, create_user, finish_profile_update, get_user_details, name_available,
    name_lookup, plan_signup, profile_update_query, registered_reply, signed_out_details, signin_lookup, signin_user,
    update_profile, write_reply, ProfilePlan, ProfileWrite, RegisteredPlan, SignupDecision, SignupPlan,
};
use peer_reviews::records::{
    Fault, NewUser, SigninDetails, SignupDetails, StoredCredentials, UpdateProfileDetails, UserDetails, UserRow,
};
use peer_reviews::sql::{insert_user, Query, SqlValue};

fn texts(q: &Query) -> Vec<String> {
    q.params
        .iter()
        .map(|p| match p {
            SqlValue::Text(s) => s.clone(),
            SqlValue::Int(i) => format!("int {}", i),
            SqlValue::Flag(b) => format!("flag {}", b),
        })
        .collect()
}
use peer_reviews::session::{Session, SessionCookies};

fn signup(name: &str, class: &str) -> SignupDetails {
    SignupDetails { class: String::from(class), name: String::from(name), email: String::from("x@y.z") }
}

fn quick_hash(text: &str) -> String {
    bcrypt::hash(text, 4).unwrap()
}

fn row(name: &str, password: &str, salt: i64) -> UserRow {
    UserRow {
        id: 17,
        name: String::from(name),
        class: String::from("10a"),
        password: String::from(password),
        salt,
        email: String::from("anna@example.com"),
        profile_pic: String::from("https://pics/anna.png"),
        private: true,
    }
}

fn session(name: &str, hash: &str) -> Session {
    Session { name: String::from(name), hash: String::from(hash) }
}

#[test]
fn name_lookup_passes_the_name_as_a_parameter() {
    assert!(name_lookup("").is_none());
    let q = name_lookup("x' OR '1'='1").unwrap();
    assert_eq!(q.text, "SELECT * FROM users WHERE name = $1");
    assert_eq!(texts(&q), vec!["x' OR '1'='1"]);
}

#[test]
fn empty_name_is_never_available() {
    assert!(!name_available("", 0));
    assert!(name_available("anna", 0));
    assert!(!name_available("anna", 1));
}

#[test]
fn signup_refuses_names_of_three_characters_or_fewer() {
    for name in ["abc", "ééé", ""].iter() {
        match plan_signup(&signup(name, "10a")) {
            SignupPlan::Reply(t) => assert_eq!(t, "Error: Name has to be more than 3 characters long"),
            _ => panic!("expected a reply"),
        }
        match create_user(&signup(name, "10a"), 0, Some("pw")) {
            Ok(SignupDecision::Reply(t)) => assert_eq!(t, "Error: Name has to be more than 3 characters long"),
            _ => panic!("expected a reply"),
        }
    }
    match plan_signup(&signup("éééé", "10a")) {
        SignupPlan::LookupName(q) => {
            assert_eq!(q.text, "SELECT * FROM users WHERE name = $1");
            assert_eq!(texts(&q), vec!["éééé"]);
        },
        _ => panic!("expected a lookup"),
    }
}

#[test]
fn signup_refuses_empty_class() {
    match plan_signup(&signup("annabel", "")) {
        SignupPlan::Reply(t) => assert_eq!(t, "Error: No class specified"),
        _ => panic!("expected a reply"),
    }
    match create_user(&signup("annabel", ""), 0, Some("pw")) {
        Ok(SignupDecision::Reply(t)) => assert_eq!(t, "Error: No class specified"),
        _ => panic!("expected a reply"),
    }
}

#[test]
fn signup_refuses_taken_names() {
    match create_user(&signup("annabel", "10a"), 1, Some("pw")) {
        Ok(SignupDecision::Reply(t)) => assert_eq!(t, "Error: Name already registered"),
        _ => panic!("expected a reply"),
    }
}

#[test]
fn signup_without_default_password_is_a_fault() {
    assert!(matches!(create_user(&signup("annabel", "10a"), 0, None), Err(Fault::MissingDefaultPassword)));
}

#[test]
fn signup_then_signin_with_default_password() {
    let details = signup("annabel", "10a");
    let user = match create_user(&details, 0, Some("default-pw")) {
        Ok(SignupDecision::Insert(u)) => u,
        _ => panic!("expected an insert"),
    };
    assert_eq!(user.name, "annabel");
    assert_eq!(user.class, "10a");
    assert_eq!(user.email, "x@y.z");
    assert_eq!(user.password_hash.len(), 60);
    assert!(user.password_hash.starts_with("$2b$12$"));
    assert!(bcrypt::verify(format!("{}{}", user.salt, "default-pw"), &user.password_hash).unwrap());

    let stored = StoredCredentials { password: user.password_hash.clone(), salt: user.salt as i64 };
    let form = SigninDetails { name: String::from("annabel"), password: String::from("default-pw") };
    let mut cookies = SessionCookies { name: None, hash: None };
    assert_eq!(signin_user(&form, Some(&stored), &mut cookies).unwrap(), "Success");
    assert_eq!(cookies.name.as_deref(), Some("annabel"));
    assert_eq!(cookies.hash.as_deref(), Some(user.password_hash.as_str()));
}

#[test]
fn insert_statement_holds_salt() {
    let u = NewUser {
        name: String::from("annabel"),
        class: String::from("10a"),
        email: String::from("a@b.c"),
        salt: 4294967295,
        password_hash: String::from("$2b$12$hash"),
    };
    let q = insert_user(&u);
    assert_eq!(texts(&q), vec!["annabel", "10a", "$2b$12$hash", "a@b.c"]);
    assert_eq!(
        q.text,
        "INSERT INTO users VALUES(\n            DEFAULT, $1, $2, $3, 4294967295, $4,\n            'https://cdn.discordapp.com/attachments/528262411392909343/548507683037118465/IMG_20190222_194150.jpg',\n            false\n        )"
    );
}

#[test]
fn write_reply_texts() {
    assert_eq!(write_reply(Ok(())), "Success");
    assert_eq!(write_reply(Err(String::from("db error: duplicate key"))), "db error: duplicate key");
}

#[test]
fn signin_needs_name_and_password() {
    let form = SigninDetails { name: String::from("anna"), password: String::new() };
    assert!(signin_lookup(&form).is_none());
    let mut cookies = SessionCookies { name: None, hash: None };
    assert_eq!(signin_user(&form, None, &mut cookies).unwrap(), "Wrong credentials");
    assert!(cookies.name.is_none() && cookies.hash.is_none());
    let full = SigninDetails { name: String::from("anna"), password: String::from("pw") };
    let q = signin_lookup(&full).unwrap();
    assert_eq!(q.text, "SELECT password, salt FROM users WHERE name = $1");
    assert_eq!(texts(&q), vec!["anna"]);
}

#[test]
fn signin_of_unknown_name_fails() {
    let form = SigninDetails { name: String::from("nobody"), password: String::from("pw") };
    let mut cookies = SessionCookies { name: Some(String::from("old")), hash: None };
    assert_eq!(signin_user(&form, None, &mut cookies).unwrap(), "Wrong credentials");
    assert_eq!(cookies.name.as_deref(), Some("old"));
}

#[test]
fn signin_with_wrong_password_fails() {
    let stored = StoredCredentials { password: quick_hash("42right"), salt: 42 };
    let form = SigninDetails { name: String::from("anna"), password: String::from("wrong") };
    let mut cookies = SessionCookies { name: None, hash: None };
    assert_eq!(signin_user(&form, Some(&stored), &mut cookies).unwrap(), "Wrong credentials");
    assert!(cookies.name.is_none() && cookies.hash.is_none());
}

#[test]
fn signin_trims_stored_hash() {
    let hash = quick_hash("-5right");
    let stored = StoredCredentials { password: format!("{}   ", hash), salt: -5 };
    let form = SigninDetails { name: String::from("anna"), password: String::from("right") };
    let mut cookies = SessionCookies { name: None, hash: None };
    assert_eq!(signin_user(&form, Some(&stored), &mut cookies).unwrap(), "Success");
    assert_eq!(cookies.name.as_deref(), Some("anna"));
    assert_eq!(cookies.hash.as_deref(), Some(hash.as_str()));
}

#[test]
fn signin_against_malformed_hash_is_a_fault() {
    let stored = StoredCredentials { password: String::from("not a hash"), salt: 1 };
    let form = SigninDetails { name: String::from("anna"), password: String::from("pw") };
    let mut cookies = SessionCookies { name: None, hash: None };
    assert_eq!(signin_user(&form, Some(&stored), &mut cookies), Err(Fault::MalformedStoredHash));
    assert!(cookies.name.is_none());
}

#[test]
fn details_of_signed_in_user() {
    let a = row("anna", "  $2b$stored ", 1);
    assert_eq!(account_details(&a), "17|anna|10a|anna@example.com|https://pics/anna.png|true");
    let s = session("anna", "$2b$stored");
    assert_eq!(get_user_details(Some(&s), Some(&a)), "17|anna|10a|anna@example.com|https://pics/anna.png|true");
}

#[test]
fn details_when_signed_out() {
    assert_eq!(signed_out_details(), "x|x|x|x|x|x");
    assert_eq!(get_user_details(None, None), "x|x|x|x|x|x");
    let a = row("anna", "$2b$stored", 1);
    assert_eq!(get_user_details(Some(&session("anna", "$2b$other")), Some(&a)), "x|x|x|x|x|x");
    // A session whose name has no row is not signed in.
    assert_eq!(get_user_details(Some(&session("ghost", "H")), None), "x|x|x|x|x|x");
}

#[test]
fn registered_status_answers() {
    let a = row("anna", "$2b$stored", 1);
    let me = session("anna", "$2b$stored");
    let form = |name: &str| UserDetails { name: String::from(name), class: String::from("10a") };
    match check_registered_status(None, None, &form("bob")).unwrap() {
        RegisteredPlan::Reply(t) => assert_eq!(t, "Signed out"),
        _ => panic!(),
    }
    match check_registered_status(Some(&session("anna", "bad")), Some(&a), &form("bob")).unwrap() {
        RegisteredPlan::Reply(t) => assert_eq!(t, "Signed out"),
        _ => panic!(),
    }
    match check_registered_status(Some(&me), Some(&a), &form("anna")).unwrap() {
        RegisteredPlan::Reply(t) => assert_eq!(t, "Self"),
        _ => panic!(),
    }
    match check_registered_status(Some(&me), Some(&a), &form("bob")).unwrap() {
        RegisteredPlan::LookupNameClass(q) => {
            assert_eq!(q.text, "SELECT * FROM users WHERE name = $1 AND class = $2");
            assert_eq!(texts(&q), vec!["bob", "10a"]);
        },
        _ => panic!(),
    }
    // A session whose name has no row fails, as a missing row does.
    assert!(matches!(check_registered_status(Some(&session("ghost", "H")), None, &form("bob")), Err(Fault::MissingAccount)));
    assert_eq!(registered_reply(0), "Not registered");
    assert_eq!(registered_reply(2), "Registered");
}

fn profile_form(old: &str, new: &str) -> UpdateProfileDetails {
    UpdateProfileDetails {
        class: String::from("11b"),
        old_password: String::from(old),
        new_password: String::from(new),
        email: String::from("new@example.com"),
        profile_pic: String::from("new.png"),
        private: false,
    }
}

#[test]
fn profile_update_keeps_hash_without_new_password() {
    let a = row("anna", "$2b$stored \n", 9);
    let s = session("anna", "$2b$stored");
    match update_profile(Some(&s), Some(&a), &profile_form("", "")).unwrap() {
        ProfilePlan::Write(w) => {
            assert_eq!(w.id, 17);
            assert_eq!(w.class, "11b");
            assert_eq!(w.password_hash, "$2b$stored \n");
            assert_eq!(w.email, "new@example.com");
            assert_eq!(w.profile_pic, "new.png");
            assert!(!w.private);
            assert!(!w.refresh_cookie);
            let q = profile_update_query(&w);
            assert_eq!(
                q.text,
                "UPDATE users SET class = $1,password = $2, email = $3, profile_pic = $4, private = $5 WHERE id = $6"
            );
            assert_eq!(texts(&q), vec!["11b", "$2b$stored \n", "new@example.com", "new.png", "flag false", "int 17"]);
        },
        _ => panic!("expected a write"),
    }
}

#[test]
fn profile_update_when_signed_out() {
    match update_profile(None, None, &profile_form("", "")).unwrap() {
        ProfilePlan::Reply(t) => assert_eq!(t, "Signed out"),
        _ => panic!(),
    }
    let a = row("anna", "$2b$stored", 9);
    match update_profile(Some(&session("anna", "bad")), Some(&a), &profile_form("", "")).unwrap() {
        ProfilePlan::Reply(t) => assert_eq!(t, "Signed out"),
        _ => panic!(),
    }
    assert!(matches!(update_profile(Some(&session("ghost", "H")), None, &profile_form("", "")), Err(Fault::MissingAccount)));
}

#[test]
fn profile_update_checks_old_password_then_length() {
    let hash = quick_hash("9old-pw");
    let a = row("anna", &hash, 9);
    let s = session("anna", &hash);
    match update_profile(Some(&s), Some(&a), &profile_form("wrong", "longenough")).unwrap() {
        ProfilePlan::Reply(t) => assert_eq!(t, "Error: Wrong old password"),
        _ => panic!(),
    }
    match update_profile(Some(&s), Some(&a), &profile_form("old-pw", "abcd")).unwrap() {
        ProfilePlan::Reply(t) => assert_eq!(t, "Error: Password is too short"),
        _ => panic!(),
    }
}

#[test]
fn profile_update_with_malformed_hash_is_a_fault() {
    let a = row("anna", "plain", 9);
    let s = session("anna", "plain");
    assert!(matches!(update_profile(Some(&s), Some(&a), &profile_form("old", "newpassword")), Err(Fault::MalformedStoredHash)));
}

#[test]
fn password_change_then_signin() {
    let hash = quick_hash("9old-pw");
    let a = row("anna", &hash, 9);
    let s = session("anna", &hash);
    let w = match update_profile(Some(&s), Some(&a), &profile_form("old-pw", "new-pw")).unwrap() {
        ProfilePlan::Write(w) => w,
        _ => panic!("expected a write"),
    };
    assert!(w.refresh_cookie);
    assert!(bcrypt::verify("9new-pw", &w.password_hash).unwrap());
    let mut cookies = SessionCookies { name: Some(String::from("anna")), hash: Some(hash.clone()) };
    assert_eq!(finish_profile_update(&w, Ok(()), &mut cookies), "Success");
    assert_eq!(cookies.hash.as_deref(), Some(w.password_hash.as_str()));
    assert_eq!(cookies.name.as_deref(), Some("anna"));

    let stored = StoredCredentials { password: w.password_hash.clone(), salt: 9 };
    let form = SigninDetails { name: String::from("anna"), password: String::from("new-pw") };
    let mut fresh = SessionCookies { name: None, hash: None };
    assert_eq!(signin_user(&form, Some(&stored), &mut fresh).unwrap(), "Success");
}

#[test]
fn failed_profile_write_keeps_cookies() {
    let w = ProfileWrite {
        id: 1,
        class: String::from("c"),
        password_hash: String::from("new"),
        email: String::new(),
        profile_pic: String::new(),
        private: false,
        refresh_cookie: true,
    };
    let mut cookies = SessionCookies { name: Some(String::from("anna")), hash: Some(String::from("old")) };
    assert_eq!(finish_profile_update(&w, Err(String::from("db down")), &mut cookies), "db down");
    assert_eq!(cookies.hash.as_deref(), Some("old"));
    let keep = ProfileWrite { refresh_cookie: false, ..w };
    assert_eq!(finish_profile_update(&keep, Ok(()), &mut cookies), "Success");
    assert_eq!(cookies.hash.as_deref(), Some("old"));
}
