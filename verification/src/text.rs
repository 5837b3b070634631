//! Text helpers: whitespace trimming, decimal numbers, byte lengths.

use vstd::prelude::*;
use vstd::utf8::encode_utf8;

verus! {

/// The Unicode `White_Space` code points, the set that `char::is_whitespace`
/// and `str::trim` use.
pub open spec fn is_space(c: char) -> bool {
    let v = c as u32;
    ||| 0x9 <= v <= 0xD
    ||| v == 0x20
    ||| v == 0x85
    ||| v == 0xA0
    ||| v == 0x1680
    ||| 0x2000 <= v <= 0x200A
    ||| v == 0x2028
    ||| v == 0x2029
    ||| v == 0x202F
    ||| v == 0x205F
    ||| v == 0x3000
}

/// `s` without its leading whitespace.
pub open spec fn trim_start(s: Seq<char>) -> Seq<char>
    decreases s.len(),
{
    if s.len() > 0 && is_space(s[0]) {
        trim_start(s.drop_first())
    } else {
        s
    }
}

/// `s` without its trailing whitespace.
pub open spec fn trim_end(s: Seq<char>) -> Seq<char>
    decreases s.len(),
{
    if s.len() > 0 && is_space(s.last()) {
        trim_end(s.drop_last())
    } else {
        s
    }
}

/// `s` without leading and trailing whitespace.
pub open spec fn trimmed(s: Seq<char>) -> Seq<char> {
    trim_end(trim_start(s))
}

/// The length in bytes of the UTF-8 encoding of `s`, as `str::len` reports it.
pub open spec fn byte_len(s: Seq<char>) -> usize {
    encode_utf8(s).len() as usize
}

/// The decimal digit character for `d` in `0..10`.
pub open spec fn digit(d: int) -> char {
    if d == 0 { '0' }
    else if d == 1 { '1' }
    else if d == 2 { '2' }
    else if d == 3 { '3' }
    else if d == 4 { '4' }
    else if d == 5 { '5' }
    else if d == 6 { '6' }
    else if d == 7 { '7' }
    else if d == 8 { '8' }
    else { '9' }
}

/// The decimal notation of `n`, without leading zeros.
pub open spec fn decimal(n: nat) -> Seq<char>
    decreases n,
{
    if n < 10 {
        seq![digit(n as int)]
    } else {
        decimal(n / 10) + seq![digit((n % 10) as int)]
    }
}

/// The decimal notation of `n`, with a `-` in front of negative numbers.
pub open spec fn int_text(n: int) -> Seq<char> {
    if n < 0 {
        seq!['-'] + decimal((-n) as nat)
    } else {
        decimal(n as nat)
    }
}

/// The fields joined into one text, with `|` between neighbours.
pub open spec fn joined(fields: Seq<Seq<char>>) -> Seq<char>
    decreases fields.len(),
{
    if fields.len() == 0 {
        Seq::empty()
    } else if fields.len() == 1 {
        fields[0]
    } else {
        joined(fields.drop_last()) + seq!['|'] + fields.last()
    }
}

/// The text of a boolean, as `{}` formats it.
pub open spec fn bool_text(b: bool) -> Seq<char> {
    if b { "true"@ } else { "false"@ }
}

/// Joining one more field adds a `|` and the field.
pub proof fn lemma_joined_push(fields: Seq<Seq<char>>, f: Seq<char>)
    requires
        fields.len() > 0,
    ensures
        joined(fields.push(f)) == joined(fields) + seq!['|'] + f,
{
    assert(fields.push(f).drop_last() =~= fields);
}

/// The pieces of `s` between `|` characters, as `str::split('|')` yields
/// them: one more piece than `s` has bars.
pub open spec fn split_bar(s: Seq<char>) -> Seq<Seq<char>>
    decreases s.len(),
{
    if s.len() == 0 {
        seq![Seq::empty()]
    } else {
        let p = split_bar(s.drop_last());
        if s.last() == '|' {
            p.push(Seq::empty())
        } else {
            p.update(p.len() - 1, p.last().push(s.last()))
        }
    }
}

/// There is always at least one piece.
pub proof fn lemma_split_bar_nonempty(s: Seq<char>)
    ensures
        split_bar(s).len() >= 1,
    decreases s.len(),
{
    if s.len() > 0 {
        lemma_split_bar_nonempty(s.drop_last());
    }
}

/// The pieces of `s` as strings, as `s.split('|')` gives them.
pub fn split_on_bar(s: &str) -> (parts: Vec<String>)
    ensures
        parts.deep_view() == split_bar(s@),
{
    let n = s.unicode_len();
    let mut parts: Vec<String> = Vec::new();
    let mut start: usize = 0;
    let mut i: usize = 0;
    assert(s@.subrange(0, 0) =~= Seq::<char>::empty());
    assert(parts.deep_view().push(s@.subrange(0, 0)) =~= split_bar(s@.subrange(0, 0)));
    while i < n
        invariant
            0 <= start <= i <= n,
            n == s@.len(),
            parts.deep_view().push(s@.subrange(start as int, i as int)) == split_bar(s@.subrange(0, i as int)),
        decreases n - i,
    {
        let ghost before = parts.deep_view();
        let ghost whole = s@.subrange(0, i + 1);
        assert(whole.drop_last() =~= s@.subrange(0, i as int));
        assert(whole.last() == s@[i as int]);
        let ghost old_start = start;
        proof {
            lemma_split_bar_nonempty(s@.subrange(0, i as int));
        }
        if s.get_char(i) == '|' {
            let piece = s.substring_char(start, i).to_owned();
            parts.push(piece);
            start = i + 1;
            assert(parts.deep_view() =~= before.push(s@.subrange(old_start as int, i as int)));
            assert(s@.subrange(start as int, i + 1) =~= Seq::<char>::empty());
            assert(parts.deep_view().push(s@.subrange(start as int, i + 1)) =~= split_bar(whole));
        } else {
            assert(s@.subrange(start as int, i + 1) =~= s@.subrange(start as int, i as int).push(s@[i as int]));
            assert(parts.deep_view().push(s@.subrange(start as int, i + 1)) =~= split_bar(whole));
        }
        i = i + 1;
    }
    assert(s@.subrange(0, n as int) =~= s@);
    let last = s.substring_char(start, n).to_owned();
    parts.push(last);
    assert(parts.deep_view() =~= split_bar(s@));
    parts
}

proof fn lemma_trim_start_shape(s: Seq<char>)
    ensures
        trim_start(s).len() == 0 || !is_space(trim_start(s)[0]),
    decreases s.len(),
{
    if s.len() > 0 && is_space(s[0]) {
        lemma_trim_start_shape(s.drop_first());
    }
}

proof fn lemma_trim_end_shape(t: Seq<char>)
    requires
        t.len() == 0 || !is_space(t[0]),
    ensures
        trim_end(t).len() == 0 || (!is_space(trim_end(t)[0]) && !is_space(trim_end(t).last())),
    decreases t.len(),
{
    if t.len() > 0 && is_space(t.last()) {
        if t.len() > 1 {
            assert(t.drop_last()[0] == t[0]);
        }
        lemma_trim_end_shape(t.drop_last());
    }
}

proof fn lemma_trim_start_suffix(s: Seq<char>) -> (a: int)
    ensures
        0 <= a <= s.len(),
        trim_start(s) == s.subrange(a, s.len() as int),
        forall|i: int| 0 <= i < a ==> is_space(#[trigger] s[i]),
    decreases s.len(),
{
    if s.len() > 0 && is_space(s[0]) {
        let t = s.drop_first();
        let a1 = lemma_trim_start_suffix(t);
        assert(t.subrange(a1, t.len() as int) =~= s.subrange(a1 + 1, s.len() as int));
        assert forall|i: int| 0 <= i < a1 + 1 implies is_space(#[trigger] s[i]) by {
            if i > 0 {
                assert(s[i] == t[i - 1]);
            }
        }
        a1 + 1
    } else {
        assert(s.subrange(0, s.len() as int) =~= s);
        0
    }
}

proof fn lemma_trim_end_prefix(s: Seq<char>) -> (b: int)
    ensures
        0 <= b <= s.len(),
        trim_end(s) == s.subrange(0, b),
        forall|i: int| b <= i < s.len() ==> is_space(#[trigger] s[i]),
    decreases s.len(),
{
    if s.len() > 0 && is_space(s.last()) {
        let t = s.drop_last();
        let b1 = lemma_trim_end_prefix(t);
        assert(t.subrange(0, b1) =~= s.subrange(0, b1));
        assert forall|i: int| b1 <= i < s.len() implies is_space(#[trigger] s[i]) by {
            if i < s.len() - 1 {
                assert(s[i] == t[i]);
            }
        }
        b1
    } else {
        assert(s.subrange(0, s.len() as int) =~= s);
        s.len() as int
    }
}

/// Trimming removes whitespace from both ends and nothing else: the result
/// is a contiguous part of the text, everything cut off before and after it
/// is whitespace, and it neither starts nor ends with whitespace.
pub proof fn law_trim_removes_only_outer_whitespace(s: Seq<char>)
    ensures
        exists|a: int, b: int| {
            &&& 0 <= a <= b <= s.len()
            &&& trimmed(s) == s.subrange(a, b)
            &&& forall|i: int| 0 <= i < a ==> is_space(#[trigger] s[i])
            &&& forall|i: int| b <= i < s.len() ==> is_space(#[trigger] s[i])
        },
        trimmed(s).len() > 0 ==> !is_space(trimmed(s)[0]) && !is_space(trimmed(s).last()),
{
    let a = lemma_trim_start_suffix(s);
    let u = s.subrange(a, s.len() as int);
    let b1 = lemma_trim_end_prefix(u);
    assert(u.subrange(0, b1) =~= s.subrange(a, a + b1));
    assert forall|i: int| a + b1 <= i < s.len() implies is_space(#[trigger] s[i]) by {
        assert(s[i] == u[i - a]);
    }
    assert(trimmed(s) == s.subrange(a, a + b1));
    lemma_trim_start_shape(s);
    lemma_trim_end_shape(trim_start(s));
}

/// Trimming twice is trimming once.
pub proof fn lemma_trim_idempotent(s: Seq<char>)
    ensures
        trimmed(trimmed(s)) == trimmed(s),
{
    lemma_trim_start_shape(s);
    lemma_trim_end_shape(trim_start(s));
}

/// Whether `s` holds no `|`.
pub open spec fn bar_free(s: Seq<char>) -> bool {
    forall|i: int| 0 <= i < s.len() ==> s[i] != '|'
}

proof fn lemma_joined_extend_last(q: Seq<Seq<char>>, c: char)
    requires
        q.len() >= 1,
    ensures
        joined(q.update(q.len() - 1, q.last().push(c))) == joined(q).push(c),
{
    let q2 = q.update(q.len() - 1, q.last().push(c));
    if q.len() > 1 {
        assert(q2.drop_last() =~= q.drop_last());
        assert(joined(q) == joined(q.drop_last()) + seq!['|'] + q.last());
        assert(joined(q2) == joined(q2.drop_last()) + seq!['|'] + q2.last());
        assert(joined(q2) =~= joined(q).push(c));
    }
}

/// Joining the pieces of a text at `|` gives the text back.
pub proof fn lemma_join_split(s: Seq<char>)
    ensures
        joined(split_bar(s)) == s,
    decreases s.len(),
{
    if s.len() > 0 {
        let p = split_bar(s.drop_last());
        lemma_join_split(s.drop_last());
        lemma_split_bar_nonempty(s.drop_last());
        if s.last() == '|' {
            lemma_joined_push(p, Seq::empty());
            assert(joined(p) + seq!['|'] + Seq::<char>::empty() =~= s);
        } else {
            lemma_joined_extend_last(p, s.last());
            assert(s.drop_last().push(s.last()) =~= s);
        }
    }
}

proof fn lemma_split_append_free(s: Seq<char>, t: Seq<char>)
    requires
        bar_free(t),
    ensures
        split_bar(s + t) == split_bar(s).update(split_bar(s).len() - 1, split_bar(s).last() + t),
    decreases t.len(),
{
    lemma_split_bar_nonempty(s);
    if t.len() == 0 {
        assert(s + t =~= s);
        assert(split_bar(s).last() + t =~= split_bar(s).last());
        assert(split_bar(s).update(split_bar(s).len() - 1, split_bar(s).last()) =~= split_bar(s));
    } else {
        let t0 = t.drop_last();
        assert(bar_free(t0));
        lemma_split_append_free(s, t0);
        assert((s + t).drop_last() =~= s + t0);
        assert((s + t).last() == t.last());
        let p = split_bar(s);
        let q = p.update(p.len() - 1, p.last() + t0);
        assert(q.last() == p.last() + t0);
        assert(q.update(q.len() - 1, q.last().push(t.last())) =~= p.update(p.len() - 1, p.last() + t)) by {
            assert(p.last() + t0 + seq![t.last()] =~= p.last() + t);
            assert((p.last() + t0).push(t.last()) =~= p.last() + t);
        }
    }
}

/// Splitting joined fields at `|` gives the fields back, where no field
/// holds a `|`.
pub proof fn lemma_split_joined(fields: Seq<Seq<char>>)
    requires
        fields.len() >= 1,
        forall|i: int| 0 <= i < fields.len() ==> bar_free(#[trigger] fields[i]),
    ensures
        split_bar(joined(fields)) == fields,
    decreases fields.len(),
{
    if fields.len() == 1 {
        lemma_split_append_free(Seq::empty(), fields[0]);
        assert(Seq::<char>::empty() + fields[0] =~= fields[0]);
        assert(split_bar(Seq::<char>::empty()) == seq![Seq::<char>::empty()]);
        assert(Seq::<char>::empty() + fields[0] =~= fields[0]);
        assert(fields =~= seq![fields[0]]);
    } else {
        let front = fields.drop_last();
        assert forall|i: int| 0 <= i < front.len() implies bar_free(#[trigger] front[i]) by {
            assert(front[i] == fields[i]);
        }
        lemma_split_joined(front);
        let a = joined(front) + seq!['|'];
        assert(a.drop_last() =~= joined(front));
        assert(split_bar(a) == front.push(Seq::empty()));
        assert(bar_free(fields.last()));
        lemma_split_append_free(a, fields.last());
        assert(Seq::<char>::empty() + fields.last() =~= fields.last());
        assert(front.push(Seq::empty()).update(front.len() as int, fields.last()) =~= fields);
    }
}

/// Whether `c` is one of `0` to `9`.
pub open spec fn is_digit(c: char) -> bool {
    '0' <= c <= '9'
}

/// A decimal notation is a non-empty run of digits.
pub proof fn lemma_decimal_digits(n: nat)
    ensures
        decimal(n).len() >= 1,
        forall|i: int| 0 <= i < decimal(n).len() ==> is_digit(#[trigger] decimal(n)[i]),
    decreases n,
{
    if n >= 10 {
        lemma_decimal_digits(n / 10);
        let d = decimal(n / 10);
        let e = seq![digit((n % 10) as int)];
        assert forall|i: int| 0 <= i < decimal(n).len() implies is_digit(#[trigger] decimal(n)[i]) by {
            if i < d.len() {
                assert(decimal(n)[i] == d[i]);
            } else {
                assert(decimal(n)[i] == e[i - d.len()]);
            }
        }
    }
}

/// An integer's text is not empty, holds no `|`, and starts with a digit or `-`.
pub proof fn lemma_int_text_shape(n: int)
    ensures
        int_text(n).len() >= 1,
        is_digit(int_text(n)[0]) || int_text(n)[0] == '-',
        bar_free(int_text(n)),
{
    if n < 0 {
        lemma_decimal_digits((-n) as nat);
        let d = decimal((-n) as nat);
        assert forall|i: int| 0 <= i < int_text(n).len() implies int_text(n)[i] != '|' by {
            if i > 0 {
                assert(int_text(n)[i] == d[i - 1]);
            }
        }
    } else {
        lemma_decimal_digits(n as nat);
        assert forall|i: int| 0 <= i < int_text(n).len() implies int_text(n)[i] != '|' by {
            assert(is_digit(decimal(n as nat)[i]));
        }
    }
}

/// Whether `c` is whitespace.
pub fn is_space_char(c: char) -> (b: bool)
    ensures
        b == is_space(c),
{
    let v = c as u32;
    (0x9 <= v && v <= 0xD) || v == 0x20 || v == 0x85 || v == 0xA0 || v == 0x1680 || (0x2000 <= v
        && v <= 0x200A) || v == 0x2028 || v == 0x2029 || v == 0x202F || v == 0x205F || v == 0x3000
}

proof fn lemma_trim_start_step(s: Seq<char>, i: int)
    requires
        0 <= i < s.len(),
        is_space(s[i]),
    ensures
        trim_start(s.subrange(i, s.len() as int)) == trim_start(s.subrange(i + 1, s.len() as int)),
{
    let t = s.subrange(i, s.len() as int);
    assert(t.drop_first() =~= s.subrange(i + 1, s.len() as int));
}

proof fn lemma_trim_end_step(s: Seq<char>, i: int, j: int)
    requires
        0 <= i < j <= s.len(),
        is_space(s[j - 1]),
    ensures
        trim_end(s.subrange(i, j)) == trim_end(s.subrange(i, j - 1)),
{
    let t = s.subrange(i, j);
    assert(t.drop_last() =~= s.subrange(i, j - 1));
}

/// `s` with leading and trailing whitespace removed, as `str::trim` does.
pub fn trim(s: &str) -> (t: &str)
    ensures
        t@ == trimmed(s@),
{
    let n = s.unicode_len();
    let mut i: usize = 0;
    assert(s@.subrange(0, n as int) =~= s@);
    while i < n && is_space_char(s.get_char(i))
        invariant
            i <= n,
            n == s@.len(),
            trim_start(s@) == trim_start(s@.subrange(i as int, n as int)),
        decreases n - i,
    {
        proof {
            lemma_trim_start_step(s@, i as int);
        }
        i = i + 1;
    }
    let ghost front = s@.subrange(i as int, n as int);
    assert(trim_start(s@) == front) by {
        if i < n {
            assert(!is_space(front[0]));
        }
    }
    let mut j: usize = n;
    assert(s@.subrange(i as int, j as int) =~= front);
    while j > i && is_space_char(s.get_char(j - 1))
        invariant
            i <= j <= n,
            n == s@.len(),
            front == s@.subrange(i as int, n as int),
            trim_end(front) == trim_end(s@.subrange(i as int, j as int)),
        decreases j,
    {
        proof {
            lemma_trim_end_step(s@, i as int, j as int);
        }
        j = j - 1;
    }
    proof {
        let back = s@.subrange(i as int, j as int);
        if j > i {
            assert(back.last() == s@[j - 1]);
        }
        assert(trim_end(front) == back);
    }
    s.substring_char(i, j)
}

/// The text of a boolean, as `b.to_string()` gives it.
pub fn bool_to_text(b: bool) -> (t: &'static str)
    ensures
        t@ == bool_text(b),
{
    if b { "true" } else { "false" }
}

/// Whether two texts are equal.
pub fn same_text(a: &str, b: &str) -> (r: bool)
    ensures
        r == (a@ == b@),
{
    let x = String::from_str(a);
    let y = String::from_str(b);
    x == y
}

/// The one-character text of the digit `d`.
fn digit_text(d: u64) -> (t: &'static str)
    requires
        d < 10,
    ensures
        t@ == seq![digit(d as int)],
{
    if d == 0 {
        proof { reveal_strlit("0"); }
        "0"
    } else if d == 1 {
        proof { reveal_strlit("1"); }
        "1"
    } else if d == 2 {
        proof { reveal_strlit("2"); }
        "2"
    } else if d == 3 {
        proof { reveal_strlit("3"); }
        "3"
    } else if d == 4 {
        proof { reveal_strlit("4"); }
        "4"
    } else if d == 5 {
        proof { reveal_strlit("5"); }
        "5"
    } else if d == 6 {
        proof { reveal_strlit("6"); }
        "6"
    } else if d == 7 {
        proof { reveal_strlit("7"); }
        "7"
    } else if d == 8 {
        proof { reveal_strlit("8"); }
        "8"
    } else {
        proof { reveal_strlit("9"); }
        "9"
    }
}

/// Appends the decimal notation of `n` to `out`.
pub fn push_decimal(out: &mut String, n: u64)
    ensures
        final(out)@ == old(out)@ + decimal(n as nat),
    decreases n,
{
    if n >= 10 {
        push_decimal(out, n / 10);
    }
    out.append(digit_text(n % 10));
    proof {
        if n >= 10 {
            assert(decimal(n as nat) == decimal((n / 10) as nat) + seq![digit((n % 10) as int)]);
            assert(old(out)@ + decimal((n / 10) as nat) + seq![digit((n % 10) as int)]
                =~= old(out)@ + decimal(n as nat));
        } else {
            assert(n % 10 == n);
        }
    }
}

/// Appends the decimal notation of `n` to `out`, as `{}` formats an integer.
pub fn push_int(out: &mut String, n: i64)
    ensures
        final(out)@ == old(out)@ + int_text(n as int),
{
    if n < 0 {
        proof { reveal_strlit("-"); }
        out.append("-");
        let magnitude: u64 = ((-(n + 1)) as u64) + 1;
        push_decimal(out, magnitude);
        assert(old(out)@ + seq!['-'] + decimal(magnitude as nat) =~= old(out)@ + int_text(n as int));
    } else {
        push_decimal(out, n as u64);
    }
}

/// The decimal notation of `n`, as `n.to_string()` gives it.
pub fn int_to_text(n: i64) -> (t: String)
    ensures
        t@ == int_text(n as int),
{
    let mut t = String::new();
    push_int(&mut t, n);
    assert(Seq::<char>::empty() + int_text(n as int) =~= int_text(n as int));
    t
}

} // verus!
