//! The values the site exchanges with its forms, its pages and its database.

use vstd::prelude::*;

verus! {

/// The sign-in form.
pub struct SigninDetails {
    pub name: String,
    pub password: String,
}

/// The sign-up form.
pub struct SignupDetails {
    pub class: String,
    pub name: String,
    pub email: String,
}

/// The form that asks whether someone with a given name and class is registered.
pub struct UserDetails {
    pub name: String,
    pub class: String,
}

/// The form for posting a review.
pub struct ReviewDetails {
    pub about: String,
    pub about_class: String,
    pub content: String,
    pub anonymous: bool,
}

/// The profile form.
pub struct UpdateProfileDetails {
    pub class: String,
    pub old_password: String,
    pub new_password: String,
    pub email: String,
    pub profile_pic: String,
    pub private: bool,
}

/// A review as the reviews page shows it. `by_user` holds the author's id,
/// name, class, email and profile picture, or `["", "no", "", "", ""]` where
/// the author is not a registered user (an anonymous review).
pub struct Review {
    pub about: String,
    pub about_class: String,
    pub time: String,
    pub content: String,
    pub by_user: [String; 5],
}

/// A row of the `users` table.
pub struct UserRow {
    pub id: i32,
    pub name: String,
    pub class: String,
    pub password: String,
    pub salt: i64,
    pub email: String,
    pub profile_pic: String,
    pub private: bool,
}

/// The stored password hash and salt of a user, as the sign-in lookup reads them.
pub struct StoredCredentials {
    pub password: String,
    pub salt: i64,
}

/// A row of the `reviews` table. The time is the row's timestamp as seconds
/// and nanoseconds since the Unix epoch.
pub struct ReviewRow {
    pub about: String,
    pub about_class: String,
    pub time_secs: i64,
    pub time_nanos: u32,
    pub content: String,
    pub by_user: String,
}

/// A user to insert into the `users` table.
pub struct NewUser {
    pub name: String,
    pub class: String,
    pub email: String,
    pub salt: u32,
    pub password_hash: String,
}

/// What went wrong where the site cannot go on with a request; the
/// application turns each of these into a failed request.
#[derive(Debug, PartialEq, Eq, Structural)]
pub enum Fault {
    /// bcrypt could not hash a password.
    HashingFailed,
    /// A stored password hash is not a bcrypt hash that can be checked.
    MalformedStoredHash,
    /// The default password for new accounts is not configured.
    MissingDefaultPassword,
    /// The signed-in name has no row in the `users` table.
    MissingAccount,
    /// The operating system gave no randomness for a salt.
    NoRandomness,
    /// A review's timestamp is out of the representable range.
    InvalidTimestamp,
}

/// Whether a request answered with exactly the text `t`.
pub open spec fn answers(r: Result<String, Fault>, t: Seq<char>) -> bool {
    r matches Ok(x) && x@ == t
}

} // verus!
