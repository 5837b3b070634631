//! Posting reviews and collecting the reviews a signed-in user is shown.

use vstd::prelude::*;
use crate::clock::{format_timestamp, timestamp_text};
use crate::records::{Fault, Review, ReviewDetails, ReviewRow, UserRow};
use crate::session::{session_signed_in, signed_in_as, Session};
use crate::sql::{all_reviews, insert_review, is_all_reviews, is_review_insert, is_user_in_class_lookup, is_user_lookup, user_in_class_lookup, user_lookup, Query};
use crate::text::{int_text, int_to_text, same_text};

verus! {

// ---------------------------------------------------------------- posting

/// The first step of posting a review.
pub enum ReviewPlan {
    /// Answer with this text.
    Reply(String),
    /// Run this insert, then answer with what it gave (`write_reply`).
    Insert(Query),
}

/// Posts a review for the signed-in visitor. An anonymous review is stored
/// as written by `no`; any other as written by the visitor. A session whose
/// name has no `users` row is a fault.
pub fn post_review(session: Option<&Session>, account: Option<&UserRow>, details: &ReviewDetails) -> (r: Result<ReviewPlan, Fault>)
    ensures
        session is Some && account is None ==> r == Err::<ReviewPlan, Fault>(Fault::MissingAccount),
        !(session is Some && account is None) && !signed_in_as(session, account) ==> (r matches Ok(ReviewPlan::Reply(t)) && t@ == "Signed out"@),
        signed_in_as(session, account) ==> (r matches Ok(ReviewPlan::Insert(q)) && is_review_insert(
            q,
            details.about@,
            details.about_class@,
            details.content@,
            if details.anonymous { "no"@ } else { session->0.name@ },
        )),
{
    if session.is_some() && account.is_none() {
        return Err(Fault::MissingAccount);
    }
    if !session_signed_in(session, account) {
        return Ok(ReviewPlan::Reply(String::from_str("Signed out")));
    }
    match session {
        Some(s) => {
            let by_user: &str = if details.anonymous {
                "no"
            } else {
                s.name.as_str()
            };
            Ok(ReviewPlan::Insert(
                insert_review(details.about.as_str(), details.about_class.as_str(), details.content.as_str(), by_user),
            ))
        },
        None => Ok(ReviewPlan::Reply(String::from_str("Signed out"))),
    }
}

// ---------------------------------------------------------------- showing

/// The texts of an array of strings.
pub open spec fn texts(a: [String; 5]) -> Seq<Seq<char>> {
    a@.map_values(|s: String| s@)
}

/// What a review shows of its author: id, name, class, email and profile
/// picture of the registered author, or `["", "no", "", "", ""]` where the
/// author is not a registered user.
pub open spec fn author_fields(author: Option<UserRow>) -> Seq<Seq<char>> {
    match author {
        None => seq![Seq::empty(), "no"@, Seq::empty(), Seq::empty(), Seq::empty()],
        Some(u) => seq![int_text(u.id as int), u.name@, u.class@, u.email@, u.profile_pic@],
    }
}

/// Whether `r` shows the review row `row` with the time text `time` and the
/// author found for it.
pub open spec fn is_review_of(row: ReviewRow, time: Seq<char>, author: Option<UserRow>, r: Review) -> bool {
    &&& r.about@ == row.about@
    &&& r.about_class@ == row.about_class@
    &&& r.time@ == time
    &&& r.content@ == row.content@
    &&& texts(r.by_user) == author_fields(author)
}

/// The review shown for a row, given its formatted time and its author's row.
pub fn assemble_review(row: &ReviewRow, time: String, author: Option<&UserRow>) -> (r: Review)
    ensures
        is_review_of(*row, time@, match author { Some(u) => Some(*u), None => None }, r),
        r.about@ == row.about@ && r.about_class@ == row.about_class@ && r.content@ == row.content@ && r.time@ == time@,
        author matches Some(u) ==> (r.by_user@[0]@ == int_text(u.id as int) && r.by_user@[1]@ == u.name@
            && r.by_user@[2]@ == u.class@ && r.by_user@[3]@ == u.email@ && r.by_user@[4]@ == u.profile_pic@),
        author is None ==> (r.by_user@[0]@.len() == 0 && r.by_user@[1]@ == "no"@ && r.by_user@[2]@.len() == 0
            && r.by_user@[3]@.len() == 0 && r.by_user@[4]@.len() == 0),
{
    let by_user: [String; 5] = match author {
        None => [String::new(), String::from_str("no"), String::new(), String::new(), String::new()],
        Some(u) => [int_to_text(u.id as i64), u.name.clone(), u.class.clone(), u.email.clone(), u.profile_pic.clone()],
    };
    let r = Review {
        about: row.about.clone(),
        about_class: row.about_class.clone(),
        time,
        content: row.content.clone(),
        by_user,
    };
    assert(texts(r.by_user) =~= author_fields(match author { Some(u) => Some(*u), None => None }));
    r
}

/// The review shown for a row: its time formatted by chrono, its author as
/// found in the `users` table.
pub fn make_review(row: &ReviewRow, author: Option<&UserRow>) -> (r: Result<Review, Fault>)
    ensures
        match timestamp_text(row.time_secs, row.time_nanos) {
            None => r == Err::<Review, Fault>(Fault::InvalidTimestamp),
            Some(t) => r matches Ok(v) && is_review_of(*row, t, match author { Some(u) => Some(*u), None => None }, v),
        },
{
    match format_timestamp(row.time_secs, row.time_nanos) {
        None => Err(Fault::InvalidTimestamp),
        Some(t) => Ok(assemble_review(row, t, author)),
    }
}


// ---------------------------------------------------------------- the feed

/// Where a feed of reviews stands.
#[derive(PartialEq, Eq, Structural)]
pub enum FeedPhase {
    /// The reviews are not loaded yet.
    Loading,
    /// The current review is about another user: is that user's profile private?
    CheckAbout,
    /// The current review is shown: who wrote it?
    FetchAuthor,
    /// Every review has been gone through.
    Done,
}

/// What a feed needs from the database next.
pub enum FeedRequest {
    /// Run this lookup of all reviews and answer with `load`.
    AllReviews(Query),
    /// Run this lookup of the users with the current review's name and
    /// class, and answer with `answer` and the first one found.
    AboutUser(Query),
    /// Run this lookup of the users with the current review's author name,
    /// and answer with `answer` and the first one found.
    Author(Query),
    /// Nothing more: take the reviews with `finish`.
    Finished,
}

/// The phase for the review at `i`: reviews about the viewer are always
/// shown, reviews about others are checked for a private profile first.
pub open spec fn phase_at(viewer: Seq<char>, rows: Seq<ReviewRow>, i: int) -> FeedPhase {
    if i >= rows.len() {
        FeedPhase::Done
    } else if rows[i].about@ == viewer {
        FeedPhase::FetchAuthor
    } else {
        FeedPhase::CheckAbout
    }
}

/// Whether the review `row` is held back from `viewer`: it is about another
/// user, and the user found with that name and class has a private profile.
pub open spec fn hides(viewer: Seq<char>, row: ReviewRow, about_user: Option<UserRow>) -> bool {
    &&& row.about@ != viewer
    &&& about_user matches Some(u) && u.private
}

/// The first `n` reviews that are shown, each with the author found for it,
/// in the order loaded.
pub open spec fn shown_rows(rows: Seq<ReviewRow>, hidden: Seq<bool>, authors: Seq<Option<UserRow>>, n: int) -> Seq<(ReviewRow, Option<UserRow>)>
    decreases n,
{
    if n <= 0 {
        Seq::empty()
    } else {
        let before = shown_rows(rows, hidden, authors, n - 1);
        if hidden[n - 1] {
            before
        } else {
            before.push((rows[n - 1], authors[n - 1]))
        }
    }
}

/// Whether `r` shows the review `row` with its time formatted by chrono
/// and the author found for it.
pub open spec fn review_shows(row: ReviewRow, author: Option<UserRow>, r: Review) -> bool {
    timestamp_text(row.time_secs, row.time_nanos) matches Some(t) && is_review_of(row, t, author, r)
}

/// Whether `reviews` shows exactly the rows of `shown`, in order.
pub open spec fn shows_all(shown: Seq<(ReviewRow, Option<UserRow>)>, reviews: Seq<Review>) -> bool {
    &&& reviews.len() == shown.len()
    &&& forall|k: int| 0 <= k < shown.len() ==> review_shows(#[trigger] shown[k].0, shown[k].1, reviews[k])
}

proof fn lemma_shown_rows_extend(rows: Seq<ReviewRow>, hidden: Seq<bool>, authors: Seq<Option<UserRow>>, h: bool, a: Option<UserRow>, n: int)
    requires
        0 <= n <= hidden.len(),
        n <= authors.len(),
    ensures
        shown_rows(rows, hidden.push(h), authors.push(a), n) == shown_rows(rows, hidden, authors, n),
    decreases n,
{
    if n > 0 {
        lemma_shown_rows_extend(rows, hidden, authors, h, a, n - 1);
        assert(hidden.push(h)[n - 1] == hidden[n - 1]);
        assert(authors.push(a)[n - 1] == authors[n - 1]);
    }
}

/// The reviews page of a signed-in viewer, collected one database answer at
/// a time. Reviews about another user whose profile is private are left out;
/// the others are shown in the order loaded, with their author's details.
pub struct ReviewFeed {
    viewer: String,
    rows: Vec<ReviewRow>,
    next: usize,
    phase: FeedPhase,
    collected: Vec<Review>,
    /// For each review gone through, whether it was held back.
    hidden: Ghost<Seq<bool>>,
    /// For each review gone through, the user its privacy check found
    /// (`None` where none was found or no check was made).
    about_users: Ghost<Seq<Option<UserRow>>>,
    /// For each review gone through, the author found (`None` for a held
    /// back review).
    authors: Ghost<Seq<Option<UserRow>>>,
    /// The user the privacy check of the current review found.
    pending: Ghost<Option<UserRow>>,
}

impl ReviewFeed {
    /// The viewer's name.
    pub closed spec fn viewer(&self) -> Seq<char> {
        self.viewer@
    }

    /// The loaded reviews.
    pub closed spec fn rows(&self) -> Seq<ReviewRow> {
        self.rows@
    }

    /// The index of the current review.
    pub closed spec fn position(&self) -> int {
        self.next as int
    }

    /// Where the feed stands.
    pub closed spec fn phase(&self) -> FeedPhase {
        self.phase
    }

    /// The reviews collected so far.
    pub closed spec fn collected(&self) -> Seq<Review> {
        self.collected@
    }

    /// For each review gone through, whether it was held back.
    pub closed spec fn hidden(&self) -> Seq<bool> {
        self.hidden@
    }

    /// For each review gone through, the user its privacy check found.
    pub closed spec fn about_users(&self) -> Seq<Option<UserRow>> {
        self.about_users@
    }

    /// For each review gone through, the author found.
    pub closed spec fn authors(&self) -> Seq<Option<UserRow>> {
        self.authors@
    }

    /// The user the privacy check of the current review found.
    pub closed spec fn pending(&self) -> Option<UserRow> {
        self.pending@
    }

    /// The feed's invariant: before loading nothing is held; after it, the
    /// phase is the one of the current review, or the author is asked for
    /// after a review about another user passed the privacy check; the
    /// reviews gone through were held back exactly where `hides` says, and
    /// the collected reviews show the others.
    pub closed spec fn wf(&self) -> bool {
        &&& 0 <= self.next <= self.rows@.len()
        &&& self.phase == FeedPhase::Loading ==> (self.next == 0 && self.rows@.len() == 0
            && self.collected@.len() == 0)
        &&& self.phase != FeedPhase::Loading ==> (self.phase == phase_at(self.viewer@, self.rows@, self.next as int)
            || (self.phase == FeedPhase::FetchAuthor && phase_at(self.viewer@, self.rows@, self.next as int)
            == FeedPhase::CheckAbout))
        &&& self.hidden@.len() == self.next
        &&& self.about_users@.len() == self.next
        &&& self.authors@.len() == self.next
        &&& forall|i: int| 0 <= i < self.next ==> #[trigger] self.hidden@[i] == hides(self.viewer@, self.rows@[i], self.about_users@[i])
        &&& self.phase == FeedPhase::FetchAuthor ==> !hides(self.viewer@, self.rows@[self.next as int], self.pending@)
        &&& shows_all(shown_rows(self.rows@, self.hidden@, self.authors@, self.next as int), self.collected@)
    }

    /// An empty feed for `viewer`, waiting for the reviews.
    pub fn new(viewer: String) -> (f: ReviewFeed)
        ensures
            f.wf(),
            f.viewer() == viewer@,
            f.phase() == FeedPhase::Loading,
            f.collected().len() == 0,
    {
        ReviewFeed {
            viewer,
            rows: Vec::new(),
            next: 0,
            phase: FeedPhase::Loading,
            collected: Vec::new(),
            hidden: Ghost(Seq::empty()),
            about_users: Ghost(Seq::empty()),
            authors: Ghost(Seq::empty()),
            pending: Ghost(None),
        }
    }

    /// The phase for the current review.
    fn current_phase(&self) -> (p: FeedPhase)
        requires
            self.next <= self.rows@.len(),
        ensures
            p == phase_at(self.viewer@, self.rows@, self.next as int),
    {
        if self.next >= self.rows.len() {
            FeedPhase::Done
        } else if same_text(self.rows[self.next].about.as_str(), self.viewer.as_str()) {
            FeedPhase::FetchAuthor
        } else {
            FeedPhase::CheckAbout
        }
    }

    /// What the feed needs next.
    pub fn request(&self) -> (q: FeedRequest)
        requires
            self.wf(),
        ensures
            match self.phase() {
                FeedPhase::Loading => q matches FeedRequest::AllReviews(x) && is_all_reviews(x),
                FeedPhase::CheckAbout => q matches FeedRequest::AboutUser(x) && is_user_in_class_lookup(
                    x,
                    self.rows()[self.position()].about@,
                    self.rows()[self.position()].about_class@,
                ),
                FeedPhase::FetchAuthor => q matches FeedRequest::Author(x)
                    && is_user_lookup(x, self.rows()[self.position()].by_user@),
                FeedPhase::Done => q is Finished,
            },
    {
        match self.phase {
            FeedPhase::Loading => FeedRequest::AllReviews(all_reviews()),
            FeedPhase::CheckAbout => FeedRequest::AboutUser(
                user_in_class_lookup(self.rows[self.next].about.as_str(), self.rows[self.next].about_class.as_str()),
            ),
            FeedPhase::FetchAuthor => FeedRequest::Author(user_lookup(self.rows[self.next].by_user.as_str())),
            FeedPhase::Done => FeedRequest::Finished,
        }
    }

    /// Hands the feed all reviews. A feed that already has its reviews
    /// ignores this.
    pub fn load(&mut self, rows: Vec<ReviewRow>)
        requires
            old(self).wf(),
        ensures
            final(self).wf(),
            final(self).viewer() == old(self).viewer(),
            old(self).phase() == FeedPhase::Loading ==> {
                &&& final(self).rows() == rows@
                &&& final(self).position() == 0
                &&& final(self).phase() == phase_at(old(self).viewer(), rows@, 0)
                &&& rows@.len() == 0 ==> final(self).phase() == FeedPhase::Done
                &&& rows@.len() > 0 && rows@[0].about@ != old(self).viewer() ==> final(self).phase() == FeedPhase::CheckAbout
                &&& rows@.len() > 0 && rows@[0].about@ == old(self).viewer() ==> final(self).phase() == FeedPhase::FetchAuthor
                &&& final(self).collected().len() == 0
                &&& final(self).pending() is None
            },
            old(self).phase() != FeedPhase::Loading ==> *final(self) == *old(self),
    {
        if self.phase == FeedPhase::Loading {
            self.rows = rows;
            self.next = 0;
            self.pending = Ghost(None);
            self.phase = self.current_phase();
        }
    }

    /// Moves on to the next review, once the current one is recorded.
    fn advance(&mut self)
        requires
            old(self).next < old(self).rows.len(),
        ensures
            final(self).next == old(self).next + 1,
            final(self).phase == phase_at(old(self).viewer@, old(self).rows@, old(self).next + 1),
            final(self).viewer == old(self).viewer,
            final(self).rows == old(self).rows,
            final(self).collected == old(self).collected,
            final(self).hidden == old(self).hidden,
            final(self).about_users == old(self).about_users,
            final(self).authors == old(self).authors,
            final(self).pending@ is None,
    {
        self.next = self.next + 1;
        self.pending = Ghost(None);
        self.phase = self.current_phase();
    }

    /// Hands the feed the first user the current request found, if any.
    /// For a review about another user: a private profile holds the review
    /// back, otherwise its author is asked for next. For a shown review: the
    /// review is added with that author's details. Before loading and when
    /// done the feed ignores this.
    pub fn answer(&mut self, first: Option<UserRow>) -> (r: Result<(), Fault>)
        requires
            old(self).wf(),
        ensures
            final(self).wf(),
            final(self).viewer() == old(self).viewer(),
            final(self).rows() == old(self).rows(),
            match old(self).phase() {
                FeedPhase::CheckAbout => r is Ok && if first matches Some(u) && u.private {
                    &&& final(self).position() == old(self).position() + 1
                    &&& final(self).phase() == phase_at(old(self).viewer(), old(self).rows(), old(self).position() + 1)
                    &&& final(self).collected() == old(self).collected()
                    &&& final(self).hidden() == old(self).hidden().push(true)
                    &&& final(self).about_users() == old(self).about_users().push(first)
                    &&& final(self).authors() == old(self).authors().push(None)
                } else {
                    &&& final(self).position() == old(self).position()
                    &&& final(self).phase() == FeedPhase::FetchAuthor
                    &&& final(self).collected() == old(self).collected()
                    &&& final(self).hidden() == old(self).hidden()
                    &&& final(self).about_users() == old(self).about_users()
                    &&& final(self).authors() == old(self).authors()
                    &&& final(self).pending() == first
                },
                FeedPhase::FetchAuthor => {
                    let row = old(self).rows()[old(self).position()];
                    match timestamp_text(row.time_secs, row.time_nanos) {
                        None => r == Err::<(), Fault>(Fault::InvalidTimestamp) && *final(self) == *old(self),
                        Some(t) => {
                            &&& r is Ok
                            &&& final(self).position() == old(self).position() + 1
                            &&& final(self).phase() == phase_at(old(self).viewer(), old(self).rows(), old(self).position() + 1)
                            &&& final(self).collected().len() == old(self).collected().len() + 1
                            &&& final(self).collected().drop_last() == old(self).collected()
                            &&& is_review_of(row, t, first, final(self).collected().last())
                            &&& final(self).hidden() == old(self).hidden().push(false)
                            &&& final(self).about_users() == old(self).about_users().push(old(self).pending())
                            &&& final(self).authors() == old(self).authors().push(first)
                        },
                    }
                },
                _ => r is Ok && *final(self) == *old(self),
            },
    {
        let ghost before = *self;
        match self.phase {
            FeedPhase::CheckAbout => {
                let hidden = match &first {
                    Some(u) => u.private,
                    None => false,
                };
                if hidden {
                    proof {
                        lemma_shown_rows_extend(self.rows@, self.hidden@, self.authors@, true, None, self.next as int);
                    }
                    self.hidden = Ghost(self.hidden@.push(true));
                    self.about_users = Ghost(self.about_users@.push(first));
                    self.authors = Ghost(self.authors@.push(None));
                    self.advance();
                    proof {
                        let n = before.next as int;
                        assert forall|i: int| 0 <= i < self.next implies #[trigger] self.hidden@[i] == hides(self.viewer@, self.rows@[i], self.about_users@[i]) by {
                            if i < n {
                                assert(self.hidden@[i] == before.hidden@[i]);
                                assert(self.about_users@[i] == before.about_users@[i]);
                            }
                        }
                    }
                } else {
                    self.pending = Ghost(first);
                    self.phase = FeedPhase::FetchAuthor;
                }
                Ok(())
            },
            FeedPhase::FetchAuthor => {
                let review = match make_review(&self.rows[self.next], first.as_ref()) {
                    Ok(v) => v,
                    Err(f) => {
                        return Err(f);
                    },
                };
                proof {
                    lemma_shown_rows_extend(self.rows@, self.hidden@, self.authors@, false, first, self.next as int);
                }
                self.hidden = Ghost(self.hidden@.push(false));
                self.about_users = Ghost(self.about_users@.push(self.pending@));
                self.authors = Ghost(self.authors@.push(first));
                self.collected.push(review);
                self.advance();
                proof {
                    let n = before.next as int;
                    assert(self.collected@.drop_last() =~= before.collected@);
                    assert forall|i: int| 0 <= i < self.next implies #[trigger] self.hidden@[i] == hides(self.viewer@, self.rows@[i], self.about_users@[i]) by {
                        if i < n {
                            assert(self.hidden@[i] == before.hidden@[i]);
                            assert(self.about_users@[i] == before.about_users@[i]);
                        }
                    }
                    let old_shown = shown_rows(before.rows@, before.hidden@, before.authors@, n);
                    let shown = shown_rows(self.rows@, self.hidden@, self.authors@, n + 1);
                    assert(shown == old_shown.push((self.rows@[n], first)));
                    assert forall|k: int| 0 <= k < shown.len() implies review_shows(#[trigger] shown[k].0, shown[k].1, self.collected@[k]) by {
                        if k < old_shown.len() {
                            assert(shown[k] == old_shown[k]);
                            assert(self.collected@[k] == before.collected@[k]);
                        }
                    }
                }
                Ok(())
            },
            _ => Ok(()),
        }
    }

    /// The collected reviews, once every review has been gone through:
    /// every loaded review in order, except those about another user whose
    /// profile the privacy check found private, each shown with the author
    /// found for it.
    pub fn finish(self) -> (r: Option<Vec<Review>>)
        requires
            self.wf(),
        ensures
            self.phase() == FeedPhase::Done ==> (r matches Some(v) && v@ == self.collected()
                && self.hidden().len() == self.rows().len()
                && self.about_users().len() == self.rows().len()
                && self.authors().len() == self.rows().len()
                && (forall|i: int| 0 <= i < self.rows().len() ==> #[trigger] self.hidden()[i] == hides(self.viewer(), self.rows()[i], self.about_users()[i]))
                && shows_all(shown_rows(self.rows(), self.hidden(), self.authors(), self.rows().len() as int), v@)),
            self.phase() != FeedPhase::Done ==> r is None,
    {
        if self.phase == FeedPhase::Done {
            Some(self.collected)
        } else {
            None
        }
    }
}

/// Opens the reviews page for the signed-in visitor: a feed for the
/// session's name where the visitor is signed in as the `users` row found
/// for that name, and nothing otherwise.
pub fn get_reviews(session: Option<&Session>, account: Option<&UserRow>) -> (f: Option<ReviewFeed>)
    ensures
        signed_in_as(session, account) ==> (f matches Some(x) && x.wf() && x.viewer() == session->0.name@
            && x.phase() == FeedPhase::Loading && x.collected().len() == 0),
        !signed_in_as(session, account) ==> f is None,
{
    if !session_signed_in(session, account) {
        return None;
    }
    match session {
        Some(s) => Some(ReviewFeed::new(s.name.clone())),
        None => None,
    }
}

} // verus!
