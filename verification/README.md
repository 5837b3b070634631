# peer_reviews

A site where students rate each other: sign-up, sign-in, a profile page and
a page of reviews, backed by PostgreSQL.

- `src/` is the library, verified with Verus. It decides every request: which
  forms are refused, how passwords are salted and hashed with bcrypt, when a
  cookie session counts as signed in, what the details and reviews pages show,
  and which reviews a private profile hides. Each database query it needs is
  asked for as a value (`SignupPlan`, `RegisteredPlan`, `ProfilePlan`,
  `ReviewPlan`, `FeedRequest`) and its answer is handed back.
- `app/` is the Rocket server: routes, templates, the PostgreSQL client and
  the private cookies. It runs the statements the library builds and converts
  rows and forms to the library's types.
- `tests/` runs the library against the real bcrypt, chrono and rand crates.
