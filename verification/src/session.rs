//! The signed-in state of a visitor: two private cookies, one with the user's
//! name and one with their password hash.

use vstd::prelude::*;
use crate::records::UserRow;
use crate::text::{same_text, trim, trimmed};

verus! {

/// The private cookies of a visitor that the site reads and writes.
pub struct SessionCookies {
    /// The `name` cookie.
    pub name: Option<String>,
    /// The `hash` cookie.
    pub hash: Option<String>,
}

/// The name and hash cookies of a visitor who holds both.
pub struct Session {
    pub name: String,
    pub hash: String,
}

/// Whether the cookie holds exactly the text `t`.
pub open spec fn holds(cookie: Option<String>, t: Seq<char>) -> bool {
    cookie matches Some(c) && c@ == t
}

/// Whether a session hash signs in the account whose stored password is
/// `stored`: the hash equals the stored password without surrounding whitespace.
pub open spec fn signed_in(session_hash: Seq<char>, stored: Seq<char>) -> bool {
    session_hash == trimmed(stored)
}

impl SessionCookies {
    /// The session the cookies hold: both cookies, or none where one is missing.
    pub fn session(&self) -> (s: Option<Session>)
        ensures
            s is Some <==> (self.name is Some && self.hash is Some),
            s matches Some(x) ==> holds(self.name, x.name@) && holds(self.hash, x.hash@),
    {
        match (&self.name, &self.hash) {
            (Some(n), Some(h)) => Some(Session { name: n.clone(), hash: h.clone() }),
            _ => None,
        }
    }
}

/// Whether `session` is signed in as `account`.
pub fn is_signed_in(session: &Session, account: &UserRow) -> (b: bool)
    ensures
        b == signed_in(session.hash@, account.password@),
{
    same_text(session.hash.as_str(), trim(account.password.as_str()))
}

/// Whether the visitor is signed in: the cookies hold a session, a user row
/// was found for its name, and its hash signs in that row. A session whose
/// name has no row is not signed in.
pub open spec fn signed_in_as(session: Option<&Session>, account: Option<&UserRow>) -> bool {
    match (session, account) {
        (Some(s), Some(a)) => signed_in(s.hash@, a.password@),
        _ => false,
    }
}

/// Whether the visitor is signed in as the row found for the session's name.
pub fn session_signed_in(session: Option<&Session>, account: Option<&UserRow>) -> (b: bool)
    ensures
        b == signed_in_as(session, account),
{
    match (session, account) {
        (Some(s), Some(a)) => is_signed_in(s, a),
        _ => false,
    }
}

/// Signs the visitor out: both cookies are removed.
pub fn signout_user(cookies: &mut SessionCookies) -> (r: String)
    ensures
        final(cookies).name is None,
        final(cookies).hash is None,
        r@ == "Success"@,
{
    cookies.name = None;
    cookies.hash = None;
    String::from_str("Success")
}

} // verus!
