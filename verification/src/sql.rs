//! The statements the site runs against its database. Values are always
//! passed as parameters (`$1`, `$2`, ...), never pasted into the text.

use vstd::prelude::*;
use crate::records::NewUser;
use crate::text::int_text;

verus! {

/// A parameter of a statement.
pub enum SqlValue {
    Text(String),
    Int(i32),
    Flag(bool),
}

/// A statement and its parameters, `params[0]` standing for `$1`.
pub struct Query {
    pub text: String,
    pub params: Vec<SqlValue>,
}

/// Whether `p` is the text parameter `t`.
pub open spec fn is_text(p: SqlValue, t: Seq<char>) -> bool {
    p matches SqlValue::Text(s) && s@ == t
}

/// Whether `q` finds the users named `name`.
pub open spec fn is_user_lookup(q: Query, name: Seq<char>) -> bool {
    &&& q.text@ == "SELECT * FROM users WHERE name = $1"@
    &&& q.params@.len() == 1
    &&& is_text(q.params@[0], name)
}

/// Whether `q` finds the users named `name` in class `class`.
pub open spec fn is_user_in_class_lookup(q: Query, name: Seq<char>, class: Seq<char>) -> bool {
    &&& q.text@ == "SELECT * FROM users WHERE name = $1 AND class = $2"@
    &&& q.params@.len() == 2
    &&& is_text(q.params@[0], name)
    &&& is_text(q.params@[1], class)
}

/// Whether `q` reads the stored password hash and salt of the users named `name`.
pub open spec fn is_credentials_lookup(q: Query, name: Seq<char>) -> bool {
    &&& q.text@ == "SELECT password, salt FROM users WHERE name = $1"@
    &&& q.params@.len() == 1
    &&& is_text(q.params@[0], name)
}

/// Whether `q` reads all reviews, highest id (newest) first.
pub open spec fn is_all_reviews(q: Query) -> bool {
    &&& q.text@ == "SELECT * FROM reviews ORDER BY id DESC"@
    &&& q.params@.len() == 0
}

/// The statement that inserts a user with the given salt; the id is the
/// next one, the profile picture the default one, the profile public.
pub open spec fn insert_user_text(salt: u32) -> Seq<char> {
    "INSERT INTO users VALUES(\n            DEFAULT, $1, $2, $3, "@ + int_text(salt as int)
        + ", $4,\n            'https://cdn.discordapp.com/attachments/528262411392909343/548507683037118465/IMG_20190222_194150.jpg',\n            false\n        )"@
}

/// Whether `q` inserts the user `u`.
pub open spec fn is_user_insert(q: Query, u: NewUser) -> bool {
    &&& q.text@ == insert_user_text(u.salt)
    &&& q.params@.len() == 4
    &&& is_text(q.params@[0], u.name@)
    &&& is_text(q.params@[1], u.class@)
    &&& is_text(q.params@[2], u.password_hash@)
    &&& is_text(q.params@[3], u.email@)
}

/// Whether `q` inserts a review with the current time and the next id.
pub open spec fn is_review_insert(q: Query, about: Seq<char>, about_class: Seq<char>, content: Seq<char>, by_user: Seq<char>) -> bool {
    &&& q.text@ == "INSERT INTO reviews VALUES(\n                    DEFAULT, $1, $2, DEFAULT, $3, $4\n                )"@
    &&& q.params@.len() == 4
    &&& is_text(q.params@[0], about)
    &&& is_text(q.params@[1], about_class)
    &&& is_text(q.params@[2], content)
    &&& is_text(q.params@[3], by_user)
}

/// Whether `q` updates the class, password hash, email, profile picture and
/// privacy of the user with id `id`, and nothing else.
pub open spec fn is_profile_update(q: Query, id: i32, class: Seq<char>, password_hash: Seq<char>, email: Seq<char>, profile_pic: Seq<char>, private: bool) -> bool {
    &&& q.text@ == "UPDATE users SET class = $1,password = $2, email = $3, profile_pic = $4, private = $5 WHERE id = $6"@
    &&& q.params@.len() == 6
    &&& is_text(q.params@[0], class)
    &&& is_text(q.params@[1], password_hash)
    &&& is_text(q.params@[2], email)
    &&& is_text(q.params@[3], profile_pic)
    &&& q.params@[4] == SqlValue::Flag(private)
    &&& q.params@[5] == SqlValue::Int(id)
}

/// A text parameter.
fn text(s: &str) -> (p: SqlValue)
    ensures
        is_text(p, s@),
{
    SqlValue::Text(String::from_str(s))
}

/// The lookup of the users named `name`.
pub fn user_lookup(name: &str) -> (q: Query)
    ensures
        is_user_lookup(q, name@),
{
    let mut params = Vec::new();
    params.push(text(name));
    Query { text: String::from_str("SELECT * FROM users WHERE name = $1"), params }
}

/// The lookup of the users named `name` in class `class`.
pub fn user_in_class_lookup(name: &str, class: &str) -> (q: Query)
    ensures
        is_user_in_class_lookup(q, name@, class@),
{
    let mut params = Vec::new();
    params.push(text(name));
    params.push(text(class));
    Query { text: String::from_str("SELECT * FROM users WHERE name = $1 AND class = $2"), params }
}

/// The lookup of the stored credentials of the users named `name`.
pub fn credentials_lookup(name: &str) -> (q: Query)
    ensures
        is_credentials_lookup(q, name@),
{
    let mut params = Vec::new();
    params.push(text(name));
    Query { text: String::from_str("SELECT password, salt FROM users WHERE name = $1"), params }
}

/// All reviews, newest first.
pub fn all_reviews() -> (q: Query)
    ensures
        is_all_reviews(q),
{
    Query { text: String::from_str("SELECT * FROM reviews ORDER BY id DESC"), params: Vec::new() }
}

/// The insert of the user `u`.
pub fn insert_user(u: &NewUser) -> (q: Query)
    ensures
        is_user_insert(q, *u),
{
    let mut t = String::from_str("INSERT INTO users VALUES(\n            DEFAULT, $1, $2, $3, ");
    crate::text::push_int(&mut t, u.salt as i64);
    t.append(", $4,\n            'https://cdn.discordapp.com/attachments/528262411392909343/548507683037118465/IMG_20190222_194150.jpg',\n            false\n        )");
    let mut params = Vec::new();
    params.push(text(u.name.as_str()));
    params.push(text(u.class.as_str()));
    params.push(text(u.password_hash.as_str()));
    params.push(text(u.email.as_str()));
    Query { text: t, params }
}

/// The insert of a review.
pub fn insert_review(about: &str, about_class: &str, content: &str, by_user: &str) -> (q: Query)
    ensures
        is_review_insert(q, about@, about_class@, content@, by_user@),
{
    let mut params = Vec::new();
    params.push(text(about));
    params.push(text(about_class));
    params.push(text(content));
    params.push(text(by_user));
    Query {
        text: String::from_str("INSERT INTO reviews VALUES(\n                    DEFAULT, $1, $2, DEFAULT, $3, $4\n                )"),
        params,
    }
}

/// The update of a user's profile.
pub fn profile_update(id: i32, class: &str, password_hash: &str, email: &str, profile_pic: &str, private: bool) -> (q: Query)
    ensures
        is_profile_update(q, id, class@, password_hash@, email@, profile_pic@, private),
{
    let mut params = Vec::new();
    params.push(text(class));
    params.push(text(password_hash));
    params.push(text(email));
    params.push(text(profile_pic));
    params.push(SqlValue::Flag(private));
    params.push(SqlValue::Int(id));
    Query {
        text: String::from_str("UPDATE users SET class = $1,password = $2, email = $3, profile_pic = $4, private = $5 WHERE id = $6"),
        params,
    }
}

} // verus!
