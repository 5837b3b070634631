//! Signing up, signing in, and what a signed-in user may see and change of
//! their account.

use vstd::prelude::*;
use crate::crypto::{check_password, draw_salt, hash_password, is_hash_of, salted, salted_password, bcrypt_verify_outcome};
use crate::records::{answers, Fault, NewUser, SigninDetails, SignupDetails, StoredCredentials, UpdateProfileDetails, UserDetails, UserRow};
use crate::session::{holds, session_signed_in, signed_in, signed_in_as, Session, SessionCookies};
use crate::sql::{is_profile_update, profile_update, credentials_lookup, is_credentials_lookup, is_user_in_class_lookup, is_user_lookup, user_in_class_lookup, user_lookup, Query};
use crate::text::{bool_text, bool_to_text, byte_len, int_text, joined, lemma_joined_push, push_int, trim, trimmed};

verus! {

// ---------------------------------------------------------------- sign-up

/// The lookup that tells whether `name` is taken; none for an empty name,
/// which is never available.
pub fn name_lookup(name: &str) -> (q: Option<Query>)
    ensures
        name@.len() == 0 ==> q is None,
        name@.len() > 0 ==> (q matches Some(x) && is_user_lookup(x, name@)),
{
    if name.is_empty() {
        None
    } else {
        Some(user_lookup(name))
    }
}

/// Whether `name` can be registered, given how many rows the lookup found:
/// a name is available when it is not empty and no user has it.
pub fn name_available(name: &str, rows_found: usize) -> (b: bool)
    ensures
        b == (name@.len() > 0 && rows_found == 0),
{
    !name.is_empty() && rows_found == 0
}

/// Why a sign-up form is refused before the name is looked up, if it is:
/// the name must be more than three characters long and the class given.
pub open spec fn signup_rejection(name: Seq<char>, class: Seq<char>) -> Option<Seq<char>> {
    if name.len() <= 3 {
        Some("Error: Name has to be more than 3 characters long"@)
    } else if class.len() == 0 {
        Some("Error: No class specified"@)
    } else {
        None
    }
}

/// The first step of a sign-up.
pub enum SignupPlan {
    /// Answer with this text.
    Reply(String),
    /// Run this lookup and count the rows it finds.
    LookupName(Query),
}

/// The first step of a sign-up: refuse a name of three characters or fewer
/// and an empty class, else look the name up.
pub fn plan_signup(details: &SignupDetails) -> (p: SignupPlan)
    ensures
        match signup_rejection(details.name@, details.class@) {
            Some(m) => p matches SignupPlan::Reply(t) && t@ == m,
            None => p matches SignupPlan::LookupName(q) && is_user_lookup(q, details.name@),
        },
        details.name@.len() > 3 && details.class@.len() > 0 ==> p is LookupName,
        details.name@.len() <= 3 ==> (p matches SignupPlan::Reply(t) && t@ == "Error: Name has to be more than 3 characters long"@),
        details.name@.len() > 3 && details.class@.len() == 0 ==> (p matches SignupPlan::Reply(t) && t@ == "Error: No class specified"@),
{
    if details.name.as_str().unicode_len() > 3 {
        if details.class.as_str().is_empty() {
            return SignupPlan::Reply(String::from_str("Error: No class specified"));
        }
        SignupPlan::LookupName(user_lookup(details.name.as_str()))
    } else {
        SignupPlan::Reply(String::from_str("Error: Name has to be more than 3 characters long"))
    }
}

/// The second step of a sign-up.
pub enum SignupDecision {
    /// Answer with this text.
    Reply(String),
    /// Insert this user (with `sql::insert_user`), then answer with what the
    /// insert gave.
    Insert(NewUser),
}

/// What a new account holds: the form's name, class and email, and a bcrypt
/// hash of its salt in decimal followed by the default password.
pub open spec fn is_new_user(details: SignupDetails, default_password: Seq<char>, u: NewUser) -> bool {
    &&& u.name@ == details.name@
    &&& u.class@ == details.class@
    &&& u.email@ == details.email@
    &&& is_hash_of(salted(u.salt as int, default_password), u.password_hash@)
}

/// Creates a user from the sign-up form, given how many rows the name lookup
/// of `plan_signup` found and the configured default password. The form is
/// checked again as `plan_signup` does; a taken name is refused; otherwise a
/// random salt is drawn and the salted default password is hashed.
pub fn create_user(details: &SignupDetails, rows_with_name: usize, default_password: Option<&str>) -> (r: Result<SignupDecision, Fault>)
    ensures
        match signup_rejection(details.name@, details.class@) {
            Some(m) => r matches Ok(SignupDecision::Reply(t)) && t@ == m,
            None => if rows_with_name != 0 {
                r matches Ok(SignupDecision::Reply(t)) && t@ == "Error: Name already registered"@
            } else {
                match default_password {
                    None => r == Err::<SignupDecision, Fault>(Fault::MissingDefaultPassword),
                    Some(pw) => match r {
                        Ok(SignupDecision::Insert(u)) => is_new_user(*details, pw@, u),
                        Ok(SignupDecision::Reply(_)) => false,
                        Err(f) => f == Fault::NoRandomness || f == Fault::HashingFailed,
                    },
                }
            },
        },
        details.name@.len() > 3 && details.class@.len() > 0 && rows_with_name == 0 && default_password is Some
            ==> !(r matches Ok(SignupDecision::Reply(_))),
        r matches Ok(SignupDecision::Insert(u)) ==> (u.name@ == details.name@ && u.class@ == details.class@
            && u.email@ == details.email@),
{
    match plan_signup(details) {
        SignupPlan::Reply(t) => {
            return Ok(SignupDecision::Reply(t));
        },
        SignupPlan::LookupName(_) => {},
    }
    if !name_available(details.name.as_str(), rows_with_name) {
        return Ok(SignupDecision::Reply(String::from_str("Error: Name already registered")));
    }
    match default_password {
        None => Err(Fault::MissingDefaultPassword),
        Some(pw) => {
            let salt = match draw_salt() {
                Some(salt) => salt,
                None => {
                    return Err(Fault::NoRandomness);
                },
            };
            let text = salted_password(salt as i64, pw);
            match hash_password(text.as_str()) {
                Ok(h) => Ok(
                    SignupDecision::Insert(
                        NewUser {
                            name: details.name.clone(),
                            class: details.class.clone(),
                            email: details.email.clone(),
                            salt,
                            password_hash: h,
                        },
                    ),
                ),
                Err(f) => Err(f),
            }
        },
    }
}

/// The answer to a request whose last step was a write: `Success`, or the
/// database's error text.
pub fn write_reply(result: Result<(), String>) -> (r: String)
    ensures
        match result {
            Ok(_) => r@ == "Success"@,
            Err(e) => r@ == e@,
        },
{
    match result {
        Ok(_) => String::from_str("Success"),
        Err(e) => e,
    }
}

// ---------------------------------------------------------------- sign-in

/// Whether a sign-in form gives both a name and a password.
pub open spec fn signin_attempted(name: Seq<char>, password: Seq<char>) -> bool {
    name.len() > 0 && password.len() > 0
}

/// What bcrypt answers when `password` is checked against stored credentials:
/// the salt in decimal followed by the password, against the stored hash
/// without surrounding whitespace.
pub open spec fn signin_verdict(password: Seq<char>, c: StoredCredentials) -> Option<bool> {
    bcrypt_verify_outcome(salted(c.salt as int, password), trimmed(c.password@))
}

/// The lookup of the stored credentials of the form's name; none where the
/// form lacks a name or a password, which never signs in.
pub fn signin_lookup(details: &SigninDetails) -> (q: Option<Query>)
    ensures
        !signin_attempted(details.name@, details.password@) ==> q is None,
        signin_attempted(details.name@, details.password@) ==> (q matches Some(x) && is_credentials_lookup(x, details.name@)),
        details.name@.len() > 0 && details.password@.len() > 0 ==> q is Some,
        details.name@.len() == 0 || details.password@.len() == 0 ==> q is None,
{
    if signin_needs_lookup(details) {
        Some(credentials_lookup(details.name.as_str()))
    } else {
        None
    }
}

fn signin_needs_lookup(details: &SigninDetails) -> (b: bool)
    ensures
        b == signin_attempted(details.name@, details.password@),
{
    !details.name.as_str().is_empty() && !details.password.as_str().is_empty()
}

/// Signs a user in, given the stored credentials found for the form's name
/// (none where no user has it). On matching credentials the name cookie and
/// the hash cookie are set; where the name is unknown a password is hashed
/// anyway so that both cases take about as long.
pub fn signin_user(details: &SigninDetails, stored: Option<&StoredCredentials>, cookies: &mut SessionCookies) -> (r: Result<String, Fault>)
    ensures
        !signin_attempted(details.name@, details.password@) ==> answers(r, "Wrong credentials"@),
        details.name@.len() > 0 && details.password@.len() > 0 && stored is Some
            && signin_verdict(details.password@, *stored->0) == Some(true) ==> answers(r, "Success"@),
        details.name@.len() > 0 && details.password@.len() > 0 && stored is Some
            && signin_verdict(details.password@, *stored->0) == Some(false) ==> answers(r, "Wrong credentials"@),
        details.name@.len() == 0 || details.password@.len() == 0 ==> answers(r, "Wrong credentials"@),
        signin_attempted(details.name@, details.password@) && stored is None ==> (answers(r, "Wrong credentials"@)
            || r == Err::<String, Fault>(Fault::HashingFailed)),
        signin_attempted(details.name@, details.password@) ==> match stored {
            Some(c) => match signin_verdict(details.password@, *c) {
                Some(true) => answers(r, "Success"@),
                Some(false) => answers(r, "Wrong credentials"@),
                None => r == Err::<String, Fault>(Fault::MalformedStoredHash),
            },
            None => true,
        },
        answers(r, "Success"@) ==> holds(final(cookies).name, details.name@),
        answers(r, "Success"@) ==> (stored matches Some(c) && holds(final(cookies).hash, trimmed(c.password@))),
        !answers(r, "Success"@) ==> *final(cookies) == *old(cookies),
{
    proof {
        reveal_strlit("Success");
        reveal_strlit("Wrong credentials");
        assert("Wrong credentials"@.len() != "Success"@.len());
    }
    if !signin_needs_lookup(details) {
        return Ok(String::from_str("Wrong credentials"));
    }
    match stored {
        None => {
            match hash_password("foo") {
                Ok(_) => Ok(String::from_str("Wrong credentials")),
                Err(f) => Err(f),
            }
        },
        Some(c) => {
            let text = salted_password(c.salt, details.password.as_str());
            let h = trim(c.password.as_str());
            match check_password(text.as_str(), h) {
                Ok(true) => {
                    cookies.name = Some(details.name.clone());
                    cookies.hash = Some(String::from_str(h));
                    Ok(String::from_str("Success"))
                },
                Ok(false) => Ok(String::from_str("Wrong credentials")),
                Err(f) => Err(f),
            }
        },
    }
}


// ---------------------------------------------------------------- account details

/// The text a visitor who is not signed in gets for their details.
pub open spec fn signed_out_text() -> Seq<char> {
    "x|x|x|x|x|x"@
}

/// The details of an account as the pages read them: id, name, class, email,
/// profile picture and whether the profile is private, joined by `|`.
pub open spec fn user_details_text(a: UserRow) -> Seq<char> {
    joined(seq![int_text(a.id as int), a.name@, a.class@, a.email@, a.profile_pic@, bool_text(a.private)])
}

/// The signed-out details text.
pub fn signed_out_details() -> (t: String)
    ensures
        t@ == signed_out_text(),
{
    String::from_str("x|x|x|x|x|x")
}

/// The details text of an account.
pub fn account_details(a: &UserRow) -> (t: String)
    ensures
        t@ == user_details_text(*a),
{
    proof {
        reveal_strlit("|");
    }
    let mut t = String::new();
    push_int(&mut t, a.id as i64);
    t.append("|");
    t.append(a.name.as_str());
    t.append("|");
    t.append(a.class.as_str());
    t.append("|");
    t.append(a.email.as_str());
    t.append("|");
    t.append(a.profile_pic.as_str());
    t.append("|");
    t.append(bool_to_text(a.private));
    proof {
        let f1 = seq![int_text(a.id as int)];
        let f2 = f1.push(a.name@);
        let f3 = f2.push(a.class@);
        let f4 = f3.push(a.email@);
        let f5 = f4.push(a.profile_pic@);
        let f6 = f5.push(bool_text(a.private));
        lemma_joined_push(f1, a.name@);
        lemma_joined_push(f2, a.class@);
        lemma_joined_push(f3, a.email@);
        lemma_joined_push(f4, a.profile_pic@);
        lemma_joined_push(f5, bool_text(a.private));
        assert(f6 =~= seq![int_text(a.id as int), a.name@, a.class@, a.email@, a.profile_pic@, bool_text(a.private)]);
        assert(t@ =~= joined(f6));
    }
    t
}

/// The details of the signed-in visitor, given the cookie session and the
/// `users` row found for the session's name: the account's details where
/// the visitor is signed in as that row, else the signed-out text.
pub fn get_user_details(session: Option<&Session>, account: Option<&UserRow>) -> (t: String)
    ensures
        signed_in_as(session, account) ==> t@ == user_details_text(*account->0),
        !signed_in_as(session, account) ==> t@ == signed_out_text(),
{
    match account {
        Some(a) => if session_signed_in(session, account) {
            account_details(a)
        } else {
            signed_out_details()
        },
        None => signed_out_details(),
    }
}

// ---------------------------------------------------------------- registered status

/// The first step of checking whether someone is registered.
pub enum RegisteredPlan {
    /// Answer with this text.
    Reply(String),
    /// Run this lookup of the form's name and class, then answer with
    /// `registered_reply`.
    LookupNameClass(Query),
}

/// Checks whether the person the form names is registered: only a signed-in
/// visitor may ask; asking about one's own name answers `Self`. A session
/// whose name has no `users` row is a fault.
pub fn check_registered_status(session: Option<&Session>, account: Option<&UserRow>, details: &UserDetails) -> (r: Result<RegisteredPlan, Fault>)
    ensures
        session is Some && account is None ==> r == Err::<RegisteredPlan, Fault>(Fault::MissingAccount),
        !(session is Some && account is None) && !signed_in_as(session, account) ==> (r matches Ok(RegisteredPlan::Reply(t)) && t@ == "Signed out"@),
        signed_in_as(session, account) && details.name@ == session->0.name@ ==> (r matches Ok(RegisteredPlan::Reply(t)) && t@ == "Self"@),
        signed_in_as(session, account) && details.name@ != session->0.name@ ==> (r matches Ok(RegisteredPlan::LookupNameClass(q))
            && is_user_in_class_lookup(q, details.name@, details.class@)),
{
    if session.is_some() && account.is_none() {
        return Err(Fault::MissingAccount);
    }
    if !session_signed_in(session, account) {
        return Ok(RegisteredPlan::Reply(String::from_str("Signed out")));
    }
    match session {
        Some(s) => if details.name == s.name {
            Ok(RegisteredPlan::Reply(String::from_str("Self")))
        } else {
            Ok(RegisteredPlan::LookupNameClass(user_in_class_lookup(details.name.as_str(), details.class.as_str())))
        },
        None => Ok(RegisteredPlan::Reply(String::from_str("Signed out"))),
    }
}

/// The answer once the users with the form's name and class are counted.
pub fn registered_reply(rows_found: usize) -> (t: String)
    ensures
        t@ == (if rows_found == 0 { "Not registered"@ } else { "Registered"@ }),
{
    if rows_found == 0 {
        String::from_str("Not registered")
    } else {
        String::from_str("Registered")
    }
}

// ---------------------------------------------------------------- profile

/// An update of the signed-in user's row.
pub struct ProfileWrite {
    /// The id of the row to update.
    pub id: i32,
    pub class: String,
    /// The password hash to store.
    pub password_hash: String,
    pub email: String,
    pub profile_pic: String,
    pub private: bool,
    /// Whether the password changed, so that the hash cookie must follow it.
    pub refresh_cookie: bool,
}

/// What the profile form asks to write, given the password hash to store.
pub open spec fn is_profile_write(a: UserRow, d: UpdateProfileDetails, w: ProfileWrite) -> bool {
    &&& w.id == a.id
    &&& w.class@ == d.class@
    &&& w.email@ == d.email@
    &&& w.profile_pic@ == d.profile_pic@
    &&& w.private == d.private
    &&& w.refresh_cookie == (d.new_password@.len() > 0)
}

/// The first step of a profile update.
pub enum ProfilePlan {
    /// Answer with this text.
    Reply(String),
    /// Update the row (with `profile_update_query`), then finish with
    /// `finish_profile_update`.
    Write(ProfileWrite),
}

/// Plans a profile update for the signed-in visitor. With an empty new
/// password the stored hash is kept as it is. Otherwise the old password must
/// match the stored hash, the new password must be longer than four bytes,
/// and the salted new password is hashed. A session whose name has no
/// `users` row is a fault.
pub fn update_profile(session: Option<&Session>, account: Option<&UserRow>, details: &UpdateProfileDetails) -> (r: Result<ProfilePlan, Fault>)
    ensures
        session is Some && account is None ==> r == Err::<ProfilePlan, Fault>(Fault::MissingAccount),
        !(session is Some && account is None) && !signed_in_as(session, account) ==> (r matches Ok(ProfilePlan::Reply(t)) && t@ == "Signed out"@),
        r matches Ok(ProfilePlan::Write(w)) ==> (account is Some && w.id == account->0.id && w.class@ == details.class@
            && w.email@ == details.email@ && w.profile_pic@ == details.profile_pic@ && w.private == details.private
            && w.refresh_cookie == (details.new_password@.len() > 0)),
        signed_in_as(session, account) && details.new_password@.len() == 0 ==> (r matches Ok(ProfilePlan::Write(w))
            && w.password_hash@ == account->0.password@),
        match (session, account) {
            (Some(s), Some(a)) => if !signed_in(s.hash@, a.password@) {
                true
            } else if details.new_password@.len() == 0 {
                r matches Ok(ProfilePlan::Write(w)) && is_profile_write(*a, *details, w)
                    && w.password_hash@ == a.password@
            } else {
                match bcrypt_verify_outcome(salted(a.salt as int, details.old_password@), trimmed(a.password@)) {
                    None => r == Err::<ProfilePlan, Fault>(Fault::MalformedStoredHash),
                    Some(false) => r matches Ok(ProfilePlan::Reply(t)) && t@ == "Error: Wrong old password"@,
                    Some(true) => if byte_len(details.new_password@) <= 4 {
                        r matches Ok(ProfilePlan::Reply(t)) && t@ == "Error: Password is too short"@
                    } else {
                        match r {
                            Ok(ProfilePlan::Write(w)) => is_profile_write(*a, *details, w)
                                && is_hash_of(salted(a.salt as int, details.new_password@), w.password_hash@),
                            Ok(ProfilePlan::Reply(_)) => false,
                            Err(f) => f == Fault::HashingFailed,
                        }
                    },
                }
            },
            _ => true,
        },
{
    let (s, a) = match (session, account) {
        (None, _) => {
            return Ok(ProfilePlan::Reply(String::from_str("Signed out")));
        },
        (Some(_), None) => {
            return Err(Fault::MissingAccount);
        },
        (Some(s), Some(a)) => (s, a),
    };
    if !session_signed_in(session, account) {
        return Ok(ProfilePlan::Reply(String::from_str("Signed out")));
    }
    let password_hash = if details.new_password.as_str().is_empty() {
        a.password.clone()
    } else {
        let old_text = salted_password(a.salt, details.old_password.as_str());
        match check_password(old_text.as_str(), trim(a.password.as_str())) {
            Err(f) => {
                return Err(f);
            },
            Ok(false) => {
                return Ok(ProfilePlan::Reply(String::from_str("Error: Wrong old password")));
            },
            Ok(true) => {},
        }
        if details.new_password.as_str().len() <= 4 {
            return Ok(ProfilePlan::Reply(String::from_str("Error: Password is too short")));
        }
        let new_text = salted_password(a.salt, details.new_password.as_str());
        match hash_password(new_text.as_str()) {
            Ok(h) => h,
            Err(f) => {
                return Err(f);
            },
        }
    };
    Ok(
        ProfilePlan::Write(
            ProfileWrite {
                id: a.id,
                class: details.class.clone(),
                password_hash,
                email: details.email.clone(),
                profile_pic: details.profile_pic.clone(),
                private: details.private,
                refresh_cookie: !details.new_password.as_str().is_empty(),
            },
        ),
    )
}

/// The update that writes `w` to the user's row.
pub fn profile_update_query(w: &ProfileWrite) -> (q: Query)
    ensures
        is_profile_update(q, w.id, w.class@, w.password_hash@, w.email@, w.profile_pic@, w.private),
{
    profile_update(w.id, w.class.as_str(), w.password_hash.as_str(), w.email.as_str(), w.profile_pic.as_str(), w.private)
}

/// Finishes a profile update once the row update ran: `Success`, with the
/// hash cookie set to the new hash where the password changed, or the
/// database's error text with the cookies left alone.
pub fn finish_profile_update(write: &ProfileWrite, result: Result<(), String>, cookies: &mut SessionCookies) -> (r: String)
    ensures
        match result {
            Ok(_) => r@ == "Success"@ && final(cookies).name == old(cookies).name && if write.refresh_cookie {
                holds(final(cookies).hash, write.password_hash@)
            } else {
                final(cookies).hash == old(cookies).hash
            },
            Err(e) => r@ == e@ && *final(cookies) == *old(cookies),
        },
{
    match result {
        Ok(_) => {
            if write.refresh_cookie {
                cookies.hash = Some(write.password_hash.clone());
            }
            String::from_str("Success")
        },
        Err(e) => e,
    }
}

} // verus!



