use peer_reviews::records::{Fault, ReviewDetails, ReviewRow, UserRow};
use peer_reviews::reviews::{get_reviews, make_review, post_review, FeedRequest, ReviewPlan};
use peer_reviews::session::Session;
use peer_reviews::sql::{Query, SqlValue};

fn texts(q: &Query) -> Vec<String> {
    q.params
        .iter()
        .map(|p| match p {
            SqlValue::Text(s) => s.clone(),
            SqlValue::Int(i) => format!("int {}", i),
            SqlValue::Flag(b) => format!("flag {}", b),
        })
        .collect()
}

fn user(id: i32, name: &str, class: &str, private: bool) -> UserRow {
    UserRow {
        id,
        name: String::from(name),
        class: String::from(class),
        password: String::from("$2b$hash"),
        salt: 1,
        email: format!("{}@example.com", name),
        profile_pic: format!("{}.png", name),
        private,
    }
}

fn review_row(about: &str, class: &str, by: &str, secs: i64) -> ReviewRow {
    ReviewRow {
        about: String::from(about),
        about_class: String::from(class),
        time_secs: secs,
        time_nanos: 0,
        content: format!("about {}", about),
        by_user: String::from(by),
    }
}

fn me() -> Session {
    Session { name: String::from("anna"), hash: String::from("$2b$hash") }
}

#[test]
fn posting_needs_a_session() {
    let d = ReviewDetails { about: String::from("bob"), about_class: String::from("10a"), content: String::from("ok"), anonymous: false };
    match post_review(None, None, &d).unwrap() {
        ReviewPlan::Reply(t) => assert_eq!(t, "Signed out"),
        _ => panic!(),
    }
    let bad = Session { name: String::from("anna"), hash: String::from("other") };
    match post_review(Some(&bad), Some(&user(1, "anna", "10a", false)), &d).unwrap() {
        ReviewPlan::Reply(t) => assert_eq!(t, "Signed out"),
        _ => panic!(),
    }
    assert!(matches!(post_review(Some(&me()), None, &d), Err(Fault::MissingAccount)));
}

#[test]
fn posting_records_author_or_no() {
    let a = user(1, "anna", "10a", false);
    let named = ReviewDetails { about: String::from("bob"), about_class: String::from("10a"), content: String::from("kind"), anonymous: false };
    match post_review(Some(&me()), Some(&a), &named).unwrap() {
        ReviewPlan::Insert(q) => {
            assert_eq!(q.text, "INSERT INTO reviews VALUES(\n                    DEFAULT, $1, $2, DEFAULT, $3, $4\n                )");
            assert_eq!(texts(&q), vec!["bob", "10a", "kind", "anna"]);
        },
        _ => panic!(),
    }
    let anon = ReviewDetails { anonymous: true, ..named };
    match post_review(Some(&me()), Some(&a), &anon).unwrap() {
        ReviewPlan::Insert(q) => assert_eq!(texts(&q)[3], "no"),
        _ => panic!(),
    }
}

#[test]
fn review_time_and_author_fields() {
    let row = review_row("bob", "10a", "carl", 1431648000);
    let carl = user(-4, "carl", "12c", false);
    let r = make_review(&row, Some(&carl)).unwrap();
    assert_eq!(r.time, "2015-05-15 00:00:00");
    assert_eq!(r.about, "bob");
    assert_eq!(r.about_class, "10a");
    assert_eq!(r.content, "about bob");
    assert_eq!(r.by_user, [String::from("-4"), String::from("carl"), String::from("12c"), String::from("carl@example.com"), String::from("carl.png")]);
    let anon = make_review(&row, None).unwrap();
    assert_eq!(anon.by_user, [String::new(), String::from("no"), String::new(), String::new(), String::new()]);
    let fractional = ReviewRow { time_nanos: 250_000_000, ..review_row("bob", "10a", "no", 1431648001) };
    assert_eq!(make_review(&fractional, None).unwrap().time, "2015-05-15 00:00:01.250");
}

#[test]
fn review_with_impossible_time_is_a_fault() {
    let row = review_row("bob", "10a", "no", i64::MAX);
    assert!(matches!(make_review(&row, None), Err(Fault::InvalidTimestamp)));
}

#[test]
fn reviews_need_a_signed_in_viewer() {
    assert!(get_reviews(None, None).is_none());
    assert!(get_reviews(Some(&me()), None).is_none());
    let bad = Session { name: String::from("anna"), hash: String::from("other") };
    assert!(get_reviews(Some(&bad), Some(&user(1, "anna", "10a", false))).is_none());
}

#[test]
fn feed_hides_private_profiles_of_others_only() {
    let mut feed = get_reviews(Some(&me()), Some(&user(1, "anna", "10a", true))).unwrap();
    match feed.request() {
        FeedRequest::AllReviews(q) => {
            assert_eq!(q.text, "SELECT * FROM reviews ORDER BY id DESC");
            assert!(q.params.is_empty());
        },
        _ => panic!("expected the reviews lookup"),
    }
    feed.load(vec![
        review_row("anna", "10a", "bob", 1431648000),
        review_row("dora", "11b", "anna", 1431648000),
        review_row("eve", "10a", "no", 1431648000),
        review_row("fred", "10a", "bob", 1431648000),
    ]);

    // A review about the viewer: straight to its author.
    match feed.request() {
        FeedRequest::Author(q) => {
            assert_eq!(q.text, "SELECT * FROM users WHERE name = $1");
            assert_eq!(texts(&q), vec!["bob"]);
        },
        _ => panic!("expected an author lookup"),
    }
    feed.answer(Some(user(2, "bob", "10a", true))).unwrap();

    // About dora, whose profile is private: left out.
    match feed.request() {
        FeedRequest::AboutUser(q) => {
            assert_eq!(q.text, "SELECT * FROM users WHERE name = $1 AND class = $2");
            assert_eq!(texts(&q), vec!["dora", "11b"]);
        },
        _ => panic!("expected a privacy check"),
    }
    feed.answer(Some(user(5, "dora", "11b", true))).unwrap();

    // About eve, who is not registered: shown, anonymous author.
    assert!(matches!(feed.request(), FeedRequest::AboutUser(_)));
    feed.answer(None).unwrap();
    match feed.request() {
        FeedRequest::Author(q) => assert_eq!(texts(&q), vec!["no"]),
        _ => panic!("expected an author lookup"),
    }
    feed.answer(None).unwrap();

    // About fred, public profile: shown.
    feed.answer(Some(user(6, "fred", "10a", false))).unwrap();
    feed.answer(Some(user(2, "bob", "10a", true))).unwrap();

    assert!(matches!(feed.request(), FeedRequest::Finished));
    let reviews = feed.finish().unwrap();
    let abouts: Vec<&str> = reviews.iter().map(|r| r.about.as_str()).collect();
    assert_eq!(abouts, vec!["anna", "eve", "fred"]);
    assert_eq!(reviews[0].by_user[1], "bob");
    assert_eq!(reviews[1].by_user[1], "no");
    assert_eq!(reviews[2].by_user[0], "2");
}

#[test]
fn feed_ignores_out_of_turn_answers() {
    let mut feed = get_reviews(Some(&me()), Some(&user(1, "anna", "10a", false))).unwrap();
    feed.answer(None).unwrap();
    assert!(matches!(feed.request(), FeedRequest::AllReviews(_)));
    feed.load(Vec::new());
    assert!(matches!(feed.request(), FeedRequest::Finished));
    feed.load(vec![review_row("bob", "10a", "no", 0)]);
    assert!(matches!(feed.request(), FeedRequest::Finished));
    assert_eq!(feed.finish().unwrap().len(), 0);
}

#[test]
fn unfinished_feed_gives_nothing() {
    let mut feed = get_reviews(Some(&me()), Some(&user(1, "anna", "10a", false))).unwrap();
    feed.load(vec![review_row("bob", "10a", "no", 0)]);
    assert!(feed.finish().is_none());
}

/// Runs a feed to the end, answering each lookup from `users` (first match).
fn run_feed(users: &[UserRow], rows: Vec<ReviewRow>) -> Vec<peer_reviews::records::Review> {
    let mut feed = get_reviews(Some(&me()), Some(&user(1, "anna", "10a", false))).unwrap();
    feed.load(rows);
    loop {
        match feed.request() {
            FeedRequest::AboutUser(q) => {
                let t = texts(&q);
                let found = users.iter().find(|u| u.name == t[0] && u.class == t[1]).cloned_row();
                feed.answer(found).unwrap();
            },
            FeedRequest::Author(q) => {
                let t = texts(&q);
                let found = users.iter().find(|u| u.name == t[0]).cloned_row();
                feed.answer(found).unwrap();
            },
            FeedRequest::Finished => return feed.finish().unwrap(),
            FeedRequest::AllReviews(_) => panic!("already loaded"),
        }
    }
}

trait ClonedRow {
    fn cloned_row(self) -> Option<UserRow>;
}

impl ClonedRow for Option<&UserRow> {
    fn cloned_row(self) -> Option<UserRow> {
        self.map(|u| user(u.id, &u.name, &u.class, u.private))
    }
}

#[test]
fn privacy_flag_hides_only_that_users_reviews() {
    let rows = || {
        vec![
            review_row("bob", "10a", "carl", 1431648000),
            review_row("dora", "11b", "bob", 1431648000),
            review_row("bob", "10a", "no", 1431648000),
            review_row("anna", "10a", "bob", 1431648000),
        ]
    };
    let public = vec![user(2, "bob", "10a", false), user(3, "carl", "10a", false), user(5, "dora", "11b", false)];
    let private = vec![user(2, "bob", "10a", true), user(3, "carl", "10a", false), user(5, "dora", "11b", false)];
    let before: Vec<String> = run_feed(&public, rows()).iter().map(|r| r.about.clone()).collect();
    let after: Vec<String> = run_feed(&private, rows()).iter().map(|r| r.about.clone()).collect();
    assert_eq!(before, vec!["bob", "dora", "bob", "anna"]);
    assert_eq!(after, vec!["dora", "anna"]);
}
