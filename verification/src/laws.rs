//! Properties that span several operations of the site.

use vstd::prelude::*;
use crate::accounts::{is_profile_write, ProfileWrite, signed_out_text, signin_attempted, signin_verdict, signup_rejection, user_details_text, is_new_user};
use crate::crypto::{is_hash_of, lemma_hash_is_trimmed, salted};
use crate::records::{Review, UpdateProfileDetails, SignupDetails, NewUser, StoredCredentials, UserRow, ReviewRow};
use crate::reviews::{hides, is_review_of, phase_at, shown_rows, FeedPhase};
use crate::session::{signed_in, signed_in_as, Session};
use crate::config::digits_value;
use crate::text::{decimal, digit, is_space, trim_start, trim_end, bar_free, bool_text, int_text, joined, lemma_int_text_shape, lemma_split_joined, split_bar, trimmed};

verus! {

/// A user created by sign-up signs in with the default password: bcrypt
/// accepts the salted default password against the stored hash.
pub proof fn law_new_user_can_sign_in(details: SignupDetails, default_password: Seq<char>, u: NewUser, stored: StoredCredentials)
    requires
        is_new_user(details, default_password, u),
        stored.password@ == u.password_hash@,
        stored.salt == u.salt as i64,
    ensures
        signin_verdict(default_password, stored) == Some(true),
{
    lemma_hash_is_trimmed(u.password_hash@);
}

/// After a sign-in, the hash cookie signs the visitor in as the account
/// whose stored password was checked.
pub proof fn law_signin_signs_in(hash_cookie: Seq<char>, stored: StoredCredentials, account: UserRow)
    requires
        hash_cookie == trimmed(stored.password@),
        stored.password@ == account.password@,
    ensures
        signed_in(hash_cookie, account.password@),
{
}

/// After a password change, the new password signs in with the account's
/// salt, and the refreshed hash cookie signs in as the updated account.
pub proof fn law_new_password_signs_in(salt: i64, new_password: Seq<char>, new_hash: Seq<char>, stored: StoredCredentials)
    requires
        is_hash_of(salted(salt as int, new_password), new_hash),
        stored.password@ == new_hash,
        stored.salt == salt,
    ensures
        signin_verdict(new_password, stored) == Some(true),
        signed_in(new_hash, stored.password@),
{
    lemma_hash_is_trimmed(new_hash);
}

/// The details of an account never read as the signed-out marker, so the
/// pages never mistake a signed-in visitor for a signed-out one.
pub proof fn law_details_never_signed_out(a: UserRow)
    ensures
        user_details_text(a) != signed_out_text(),
{
    lemma_int_text_shape(a.id as int);
    let fields = seq![int_text(a.id as int), a.name@, a.class@, a.email@, a.profile_pic@, bool_text(a.private)];
    lemma_first_of_joined(fields);
    reveal_strlit("x|x|x|x|x|x");
}

proof fn lemma_first_of_joined(fields: Seq<Seq<char>>)
    requires
        fields.len() >= 1,
        fields[0].len() >= 1,
    ensures
        joined(fields).len() >= 1,
        joined(fields)[0] == fields[0][0],
    decreases fields.len(),
{
    if fields.len() > 1 {
        assert(fields.drop_last()[0] == fields[0]);
        lemma_first_of_joined(fields.drop_last());
    }
}

/// The details text of an account splits at `|` into its six fields where
/// name, class, email and profile picture hold no `|`.
pub proof fn law_details_fields(a: UserRow)
    requires
        bar_free(a.name@),
        bar_free(a.class@),
        bar_free(a.email@),
        bar_free(a.profile_pic@),
    ensures
        split_bar(user_details_text(a)) == seq![int_text(a.id as int), a.name@, a.class@, a.email@, a.profile_pic@, bool_text(a.private)],
{
    lemma_int_text_shape(a.id as int);
    reveal_strlit("true");
    reveal_strlit("false");
    let fields = seq![int_text(a.id as int), a.name@, a.class@, a.email@, a.profile_pic@, bool_text(a.private)];
    assert(bar_free(bool_text(a.private)));
    assert forall|i: int| 0 <= i < fields.len() implies bar_free(#[trigger] fields[i]) by {
        if i == 0 {
        } else if i == 5 {
        }
    }
    lemma_split_joined(fields);
}

/// A review about the viewer is never held back for privacy, whatever the
/// privacy check would find: the feed goes straight to its author.
pub proof fn law_own_reviews_shown(viewer: Seq<char>, rows: Seq<ReviewRow>, i: int, about_user: Option<UserRow>)
    requires
        0 <= i < rows.len(),
        rows[i].about@ == viewer,
    ensures
        phase_at(viewer, rows, i) == FeedPhase::FetchAuthor,
        !hides(viewer, rows[i], about_user),
{
}

/// A review about someone who is not registered, or whose profile is
/// public, is never held back.
pub proof fn law_public_reviews_shown(viewer: Seq<char>, row: ReviewRow, about_user: Option<UserRow>)
    requires
        about_user matches Some(u) ==> !u.private,
    ensures
        !hides(viewer, row, about_user),
{
}

/// Sign-up keeps user names distinct and longer than three characters: a
/// user is created only for a name the lookup found no row for, so adding
/// it to distinct names keeps them distinct. No user is named `no`, the
/// author name of anonymous reviews.
pub proof fn law_signup_keeps_names_distinct(names: Seq<Seq<char>>, details: SignupDetails, default_password: Seq<char>, u: NewUser)
    requires
        forall|i: int, j: int| 0 <= i < j < names.len() ==> names[i] != names[j],
        forall|i: int| 0 <= i < names.len() ==> names[i] != details.name@,
        signup_rejection(details.name@, details.class@) is None,
        is_new_user(details, default_password, u),
    ensures
        forall|i: int, j: int| 0 <= i < j < names.push(u.name@).len() ==> names.push(u.name@)[i] != names.push(u.name@)[j],
        u.name@.len() > 3,
        u.name@ != "no"@,
{
    reveal_strlit("no");
    let all = names.push(u.name@);
    assert forall|i: int, j: int| 0 <= i < j < all.len() implies all[i] != all[j] by {
        if j == names.len() {
            assert(all[i] == names[i]);
        } else {
            assert(all[i] == names[i] && all[j] == names[j]);
        }
    }
}

/// Whether a shown review is about the user with name `name` and class `class`.
pub open spec fn about_user(name: Seq<char>, class: Seq<char>) -> spec_fn((ReviewRow, Option<UserRow>)) -> bool {
    |p: (ReviewRow, Option<UserRow>)| p.0.about@ == name && p.0.about_class@ == class
}

/// Making one user's profile private hides exactly the reviews about that
/// user from everyone else, and keeps the others in order. The two runs of
/// the feed differ only in what the privacy check finds for reviews about
/// that user (`name`, `class`): first the public profile, then the private one.
pub proof fn law_privacy_flag_hides_exactly(
    viewer: Seq<char>,
    rows: Seq<ReviewRow>,
    authors: Seq<Option<UserRow>>,
    about1: Seq<Option<UserRow>>,
    about2: Seq<Option<UserRow>>,
    hidden1: Seq<bool>,
    hidden2: Seq<bool>,
    name: Seq<char>,
    class: Seq<char>,
    n: int,
)
    requires
        0 <= n <= rows.len(),
        n <= authors.len(),
        n <= about1.len() && n <= about2.len() && n <= hidden1.len() && n <= hidden2.len(),
        name != viewer,
        forall|i: int| 0 <= i < n ==> #[trigger] hidden1[i] == hides(viewer, rows[i], about1[i]),
        forall|i: int| 0 <= i < n ==> #[trigger] hidden2[i] == hides(viewer, rows[i], about2[i]),
        forall|i: int| 0 <= i < n ==> if rows[i].about@ == name && rows[i].about_class@ == class {
            &&& (#[trigger] about1[i]) matches Some(u1) && !u1.private
            &&& about2[i] matches Some(u2) && u2.private
        } else {
            about1[i] == about2[i]
        },
    ensures
        shown_rows(rows, hidden2, authors, n) == shown_rows(rows, hidden1, authors, n).filter(
            |p: (ReviewRow, Option<UserRow>)| !about_user(name, class)(p),
        ),
    decreases n,
{
    let pred = |p: (ReviewRow, Option<UserRow>)| !about_user(name, class)(p);
    reveal(Seq::filter);
    if n > 0 {
        law_privacy_flag_hides_exactly(viewer, rows, authors, about1, about2, hidden1, hidden2, name, class, n - 1);
        let s1 = shown_rows(rows, hidden1, authors, n - 1);
        let p = (rows[n - 1], authors[n - 1]);
        assert(hidden1[n - 1] == hides(viewer, rows[n - 1], about1[n - 1]));
        assert(hidden2[n - 1] == hides(viewer, rows[n - 1], about2[n - 1]));
        if !hidden1[n - 1] {
            assert(s1.push(p).drop_last() =~= s1);
            assert(s1.push(p).last() == p);
        }
        if rows[n - 1].about@ == name && rows[n - 1].about_class@ == class {
            assert(about1[n - 1] matches Some(u1) && !u1.private);
            assert(!pred(p));
        } else {
            assert(about1[n - 1] == about2[n - 1]);
            assert(pred(p));
        }
    }
}

/// Repeating a profile update that keeps the password plans the same write
/// again: the row after the first update keeps its id and stored hash, so
/// the visitor stays signed in and the second write sets the same values.
pub proof fn law_profile_update_repeats(
    session: Session,
    a1: UserRow,
    a2: UserRow,
    d: UpdateProfileDetails,
    w1: ProfileWrite,
    w2: ProfileWrite,
)
    requires
        d.new_password@.len() == 0,
        is_profile_write(a1, d, w1),
        w1.password_hash@ == a1.password@,
        a2.id == a1.id,
        a2.password@ == a1.password@,
        is_profile_write(a2, d, w2),
        w2.password_hash@ == a2.password@,
    ensures
        signed_in(session.hash@, a1.password@) == signed_in(session.hash@, a2.password@),
        w2.id == w1.id,
        w2.class@ == w1.class@,
        w2.password_hash@ == w1.password_hash@,
        w2.email@ == w1.email@,
        w2.profile_pic@ == w1.profile_pic@,
        w2.private == w1.private,
        !w2.refresh_cookie,
{
}

/// A private profile's reviews are hidden from everyone else over a whole
/// run of the feed: where the privacy check of every review about `v` found
/// `v` (the user with that name and class), no shown review is about `v`.
pub proof fn law_private_profile_hidden(
    viewer: Seq<char>,
    rows: Seq<ReviewRow>,
    authors: Seq<Option<UserRow>>,
    about_users: Seq<Option<UserRow>>,
    hidden: Seq<bool>,
    v: UserRow,
    n: int,
)
    requires
        0 <= n <= rows.len(),
        n <= authors.len() && n <= about_users.len() && n <= hidden.len(),
        v.private,
        v.name@ != viewer,
        forall|i: int| 0 <= i < n ==> #[trigger] hidden[i] == hides(viewer, rows[i], about_users[i]),
        forall|i: int| 0 <= i < n && rows[i].about@ == v.name@ && rows[i].about_class@ == v.class@ ==> #[trigger] about_users[i] == Some(v),
    ensures
        forall|k: int| 0 <= k < shown_rows(rows, hidden, authors, n).len() ==> !(#[trigger] shown_rows(rows, hidden, authors, n)[k].0.about@ == v.name@
            && shown_rows(rows, hidden, authors, n)[k].0.about_class@ == v.class@),
    decreases n,
{
    if n > 0 {
        law_private_profile_hidden(viewer, rows, authors, about_users, hidden, v, n - 1);
        let before = shown_rows(rows, hidden, authors, n - 1);
        let all = shown_rows(rows, hidden, authors, n);
        assert(hidden[n - 1] == hides(viewer, rows[n - 1], about_users[n - 1]));
        if rows[n - 1].about@ == v.name@ && rows[n - 1].about_class@ == v.class@ {
            assert(about_users[n - 1] == Some(v));
        }
        assert forall|k: int| 0 <= k < all.len() implies !(#[trigger] all[k].0.about@ == v.name@ && all[k].0.about_class@ == v.class@) by {
            if k < before.len() {
                assert(all[k] == before[k]);
            }
        }
    }
}

/// The review loaded first (the newest, as the reviews lookup orders by id
/// descending) is shown first, unless it is held back.
pub proof fn law_first_review_shown_first(rows: Seq<ReviewRow>, hidden: Seq<bool>, authors: Seq<Option<UserRow>>, n: int)
    requires
        1 <= n <= rows.len(),
        n <= hidden.len() && n <= authors.len(),
        !hidden[0],
    ensures
        shown_rows(rows, hidden, authors, n).len() >= 1,
        shown_rows(rows, hidden, authors, n)[0] == (rows[0], authors[0]),
    decreases n,
{
    if n > 1 {
        law_first_review_shown_first(rows, hidden, authors, n - 1);
    } else {
        assert(shown_rows(rows, hidden, authors, 0) == Seq::<(ReviewRow, Option<UserRow>)>::empty());
    }
}

/// The feed asks for the privacy check of every review about someone other
/// than the viewer, and goes straight to the author only for reviews about
/// the viewer (the name compared in full); past the last review it is done.
pub proof fn law_privacy_check_for_others(viewer: Seq<char>, rows: Seq<ReviewRow>, i: int)
    requires
        0 <= i,
    ensures
        i < rows.len() && rows[i].about@ != viewer ==> phase_at(viewer, rows, i) == FeedPhase::CheckAbout,
        i < rows.len() && rows[i].about@ == viewer ==> phase_at(viewer, rows, i) == FeedPhase::FetchAuthor,
        phase_at(viewer, rows, i) == FeedPhase::FetchAuthor ==> (i < rows.len() && rows[i].about@ == viewer),
        i >= rows.len() ==> phase_at(viewer, rows, i) == FeedPhase::Done,
{
}

/// A review is held back exactly when it is about another user and the
/// privacy check found a private profile: reviews about the viewer, about
/// unregistered names and about public profiles are shown.
pub proof fn law_hidden_exactly_private_others(viewer: Seq<char>, row: ReviewRow, about_user: Option<UserRow>)
    ensures
        row.about@ != viewer && about_user is Some && about_user->0.private ==> hides(viewer, row, about_user),
        row.about@ == viewer ==> !hides(viewer, row, about_user),
        about_user is None ==> !hides(viewer, row, about_user),
        about_user is Some && !about_user->0.private ==> !hides(viewer, row, about_user),
{
}

/// A profile write carries the form's class, email, picture and privacy for
/// the signed-in user's row, and refreshes the cookie exactly when a new
/// password was given.
pub proof fn law_profile_write_takes_form(a: UserRow, d: UpdateProfileDetails, w: ProfileWrite)
    requires
        is_profile_write(a, d, w),
    ensures
        w.id == a.id,
        w.class@ == d.class@,
        w.email@ == d.email@,
        w.profile_pic@ == d.profile_pic@,
        w.private == d.private,
        w.refresh_cookie <==> d.new_password@.len() > 0,
{
}

/// Sign-up refuses a name exactly when it has three characters or fewer,
/// and otherwise refuses only an empty class; any longer name with a class
/// goes on to the lookup.
pub proof fn law_signup_refuses_only_short_names(name: Seq<char>, class: Seq<char>)
    ensures
        name.len() > 3 && class.len() > 0 ==> signup_rejection(name, class) is None,
        name.len() <= 3 ==> signup_rejection(name, class) == Some("Error: Name has to be more than 3 characters long"@),
        name.len() > 3 && class.len() == 0 ==> signup_rejection(name, class) == Some("Error: No class specified"@),
{
}

/// A sign-in is attempted exactly when both the name and the password are
/// given, whatever their length.
pub proof fn law_signin_attempted_iff_given(name: Seq<char>, password: Seq<char>)
    ensures
        signin_attempted(name, password) <==> (name.len() > 0 && password.len() > 0),
{
}

/// A shown review carries its row's subject, class and content, the time
/// text, and its author's id, name, class, email and picture in that
/// order; a review by no registered author shows `["", "no", "", "", ""]`.
pub proof fn law_review_shows_author(row: ReviewRow, time: Seq<char>, author: Option<UserRow>, r: Review)
    requires
        is_review_of(row, time, author, r),
    ensures
        r.about@ == row.about@,
        r.about_class@ == row.about_class@,
        r.content@ == row.content@,
        r.time@ == time,
        author is Some ==> {
            &&& r.by_user@[0]@ == int_text(author->0.id as int)
            &&& r.by_user@[1]@ == author->0.name@
            &&& r.by_user@[2]@ == author->0.class@
            &&& r.by_user@[3]@ == author->0.email@
            &&& r.by_user@[4]@ == author->0.profile_pic@
        },
        author is None ==> {
            &&& r.by_user@[0]@.len() == 0
            &&& r.by_user@[1]@ == "no"@
            &&& r.by_user@[2]@.len() == 0
            &&& r.by_user@[3]@.len() == 0
            &&& r.by_user@[4]@.len() == 0
        },
{
    assert(crate::reviews::texts(r.by_user)[3] == r.by_user@[3]@);
    assert(crate::reviews::texts(r.by_user)[0] == r.by_user@[0]@);
    assert(crate::reviews::texts(r.by_user)[1] == r.by_user@[1]@);
    assert(crate::reviews::texts(r.by_user)[2] == r.by_user@[2]@);
    assert(crate::reviews::texts(r.by_user)[4] == r.by_user@[4]@);
}

/// The indices of the reviews among the first `n` that are not held back,
/// in increasing order.
pub open spec fn visible_indices(hidden: Seq<bool>, n: int) -> Seq<int> {
    Seq::new(n as nat, |i: int| i).filter(|i: int| !hidden[i])
}

/// The shown reviews are the reviews not held back, each with its own
/// author, in the order loaded.
pub proof fn law_shown_rows_are_visible_in_order(rows: Seq<ReviewRow>, hidden: Seq<bool>, authors: Seq<Option<UserRow>>, n: int)
    requires
        0 <= n,
    ensures
        shown_rows(rows, hidden, authors, n) == visible_indices(hidden, n).map_values(|i: int| (rows[i], authors[i])),
    decreases n,
{
    reveal(Seq::filter);
    let f = |i: int| (rows[i], authors[i]);
    if n == 0 {
        assert(Seq::new(0nat, |i: int| i) =~= Seq::<int>::empty());
        assert(visible_indices(hidden, 0).map_values(f) =~= Seq::<(ReviewRow, Option<UserRow>)>::empty());
    } else {
        law_shown_rows_are_visible_in_order(rows, hidden, authors, n - 1);
        let all = Seq::new(n as nat, |i: int| i);
        assert(all.drop_last() =~= Seq::new((n - 1) as nat, |i: int| i));
        assert(all.last() == n - 1);
        let before = visible_indices(hidden, n - 1);
        if !hidden[n - 1] {
            assert(visible_indices(hidden, n) == before.push(n - 1));
            assert(before.push(n - 1).map_values(f) =~= before.map_values(f).push(f(n - 1)));
        } else {
            assert(visible_indices(hidden, n) == before);
        }
    }
}

proof fn lemma_digit_value(d: int)
    requires
        0 <= d < 10,
    ensures
        digit(d) as int - '0' as int == d,
{
}

/// The decimal text of a natural number denotes that number and has no
/// leading zero.
pub proof fn law_decimal_denotes_its_number(n: nat)
    ensures
        digits_value(decimal(n)) == n,
        decimal(n).len() > 1 ==> decimal(n)[0] != '0',
        n > 0 ==> decimal(n)[0] != '0',
    decreases n,
{
    if n < 10 {
        lemma_digit_value(n as int);
        assert(decimal(n).drop_last() =~= Seq::<char>::empty());
        assert(digits_value(Seq::<char>::empty()) == 0);
        assert(digits_value(decimal(n)) == digits_value(Seq::<char>::empty()) * 10 + (decimal(n).last() as int - '0' as int));
    } else {
        law_decimal_denotes_its_number(n / 10);
        lemma_digit_value((n % 10) as int);
        let d = decimal(n / 10);
        assert(decimal(n).drop_last() =~= d);
        assert(decimal(n).last() == digit((n % 10) as int));
        assert(digits_value(decimal(n)) == digits_value(d) * 10 + (digit((n % 10) as int) as int - '0' as int));
        assert(n == (n / 10) * 10 + n % 10);
        assert(decimal(n)[0] == d[0]);
    }
}

/// The salted text of a password is the salt in decimal followed by the
/// password: the password is its tail and the salt's text its head.
pub proof fn law_salted_text(salt: int, password: Seq<char>)
    ensures
        salted(salt, password).len() == int_text(salt).len() + password.len(),
        salted(salt, password).subrange(0, int_text(salt).len() as int) == int_text(salt),
        salted(salt, password).subrange(int_text(salt).len() as int, salted(salt, password).len() as int) == password,
{
    assert(salted(salt, password).subrange(0, int_text(salt).len() as int) =~= int_text(salt));
    assert(salted(salt, password).subrange(int_text(salt).len() as int, salted(salt, password).len() as int) =~= password);
}

/// Signing in checks the salted password against the stored hash with
/// surrounding whitespace ignored: two stored records with the same salt and
/// the same hash up to surrounding whitespace give the same verdict, and a
/// record holding a fresh hash of the salted password is accepted.
pub proof fn law_signin_checks_salted_password(password: Seq<char>, c1: StoredCredentials, c2: StoredCredentials)
    requires
        c1.salt == c2.salt,
        trimmed(c1.password@) == trimmed(c2.password@),
    ensures
        signin_verdict(password, c1) == signin_verdict(password, c2),
        is_hash_of(salted(c1.salt as int, password), c1.password@) ==> signin_verdict(password, c1) == Some(true),
{
    if is_hash_of(salted(c1.salt as int, password), c1.password@) {
        lemma_hash_is_trimmed(c1.password@);
    }
}

/// A session hash signs in exactly the stored password that equals it once
/// surrounding whitespace is removed; a stored bcrypt hash is signed in by
/// itself.
pub proof fn law_session_hash_signs_in(hash: Seq<char>, stored: Seq<char>)
    ensures
        signed_in(hash, stored) <==> hash == trimmed(stored),
        (forall|i: int| 0 <= i < stored.len() ==> crate::crypto::is_hash_char(#[trigger] stored[i])) ==> signed_in(stored, stored),
{
    if forall|i: int| 0 <= i < stored.len() ==> crate::crypto::is_hash_char(#[trigger] stored[i]) {
        lemma_hash_is_trimmed(stored);
    }
}

/// A visitor is signed in exactly when the cookies hold a session, a row was
/// found for its name, and the session's hash signs in that row; without a
/// session or without a row nobody is signed in.
pub proof fn law_signed_in_needs_session_and_row(session: Option<&Session>, account: Option<&UserRow>)
    ensures
        session is None ==> !signed_in_as(session, account),
        account is None ==> !signed_in_as(session, account),
        session is Some && account is Some ==> (signed_in_as(session, account) <==> session->0.hash@ == trimmed(account->0.password@)),
{
}

} // verus!
