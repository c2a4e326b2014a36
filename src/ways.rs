//! The Ways collection of the Gemini capsule: its index, newest post first,
//! and the footer of each post.
use vstd::prelude::*;

use crate::text::joined;

verus! {

/// A calendar date.
#[derive(PartialEq, Eq, Structural, Clone, Copy, Debug)]
pub struct Date {
    pub year: u16,
    pub month: u8,
    pub day: u8,
}

/// Whether `year` is a leap year of the Gregorian calendar.
pub open spec fn is_leap_year(year: int) -> bool {
    (year % 4 == 0 && year % 100 != 0) || year % 400 == 0
}

/// The number of days of `month` (1 to 12) in `year`.
pub open spec fn days_in_month(year: int, month: int) -> int {
    if month == 2 {
        if is_leap_year(year) {
            29
        } else {
            28
        }
    } else if month == 4 || month == 6 || month == 9 || month == 11 {
        30
    } else {
        31
    }
}

impl Date {
    /// Whether the date exists, in a year of at most four digits.
    pub open spec fn is_valid(self) -> bool {
        &&& self.year <= 9999
        &&& 1 <= self.month <= 12
        &&& 1 <= self.day <= days_in_month(self.year as int, self.month as int)
    }

    /// The date's position in time: a later date has a larger key.
    pub open spec fn key(self) -> int {
        self.year as int * 65536 + self.month as int * 256 + self.day as int
    }

    /// The date `year`-`month`-`day`, if it exists.
    pub fn new(year: u16, month: u8, day: u8) -> (r: Option<Date>)
        ensures
            match r {
                Some(d) => d.is_valid() && d == (Date { year, month, day }),
                None => !(Date { year, month, day }).is_valid(),
            },
    {
        if year > 9999 || month < 1 || month > 12 || day < 1 {
            return None;
        }
        let leap = (year % 4 == 0 && year % 100 != 0) || year % 400 == 0;
        let days: u8 = if month == 2 {
            if leap {
                29
            } else {
                28
            }
        } else if month == 4 || month == 6 || month == 9 || month == 11 {
            30
        } else {
            31
        };
        if day > days {
            return None;
        }
        Some(Date { year, month, day })
    }

    /// Whether this date is the same as `other` or later.
    pub fn is_not_before(&self, other: &Date) -> (r: bool)
        ensures
            r == (self.key() >= other.key()),
    {
        if self.year != other.year {
            self.year > other.year
        } else if self.month != other.month {
            self.month > other.month
        } else {
            self.day >= other.day
        }
    }
}

/// A post of the collection, as its front matter describes it.
#[derive(Clone, Debug)]
pub struct WaysMeta {
    /// The post's file name without `.md`.
    pub slug: String,
    pub title: String,
    pub date: Date,
}

/// `s` with `e` placed after every post of `s` that is dated the same day
/// as `e` or later, and before the rest.
pub open spec fn insert_by_date(s: Seq<WaysMeta>, e: WaysMeta) -> Seq<WaysMeta>
    decreases s.len(),
{
    if s.len() == 0 {
        seq![e]
    } else if s[0].date.key() >= e.date.key() {
        seq![s[0]] + insert_by_date(s.drop_first(), e)
    } else {
        seq![e] + s
    }
}

/// The posts from the newest to the oldest; posts of the same day keep
/// their order.
pub open spec fn newest_first(s: Seq<WaysMeta>) -> Seq<WaysMeta>
    decreases s.len(),
{
    if s.len() == 0 {
        s
    } else {
        insert_by_date(newest_first(s.drop_last()), s.last())
    }
}

/// Whether the posts go from the newest to the oldest.
pub open spec fn is_newest_first(s: Seq<WaysMeta>) -> bool {
    forall|i: int, j: int| 0 <= i < j < s.len() ==> s[i].date.key() >= s[j].date.key()
}

/// Placing `e` by date is inserting it before the first post older than it.
proof fn lemma_insert_at_first_older(s: Seq<WaysMeta>, e: WaysMeta, k: int)
    requires
        0 <= k <= s.len(),
        forall|j: int| 0 <= j < k ==> s[j].date.key() >= e.date.key(),
        k < s.len() ==> s[k].date.key() < e.date.key(),
    ensures
        insert_by_date(s, e) == s.insert(k, e),
    decreases s.len(),
{
    if s.len() == 0 {
        assert(s.insert(k, e) =~= seq![e]);
    } else if k == 0 {
        assert(s.insert(k, e) =~= seq![e] + s);
    } else {
        let t = s.drop_first();
        assert forall|j: int| 0 <= j < k - 1 implies t[j].date.key() >= e.date.key() by {
            assert(t[j] == s[j + 1]);
        }
        lemma_insert_at_first_older(t, e, k - 1);
        assert(s.insert(k, e) =~= seq![s[0]] + t.insert(k - 1, e));
    }
}

/// Placing a post by date keeps the posts newest first, and adds it to them.
proof fn lemma_insert_keeps_order(s: Seq<WaysMeta>, e: WaysMeta)
    requires
        is_newest_first(s),
    ensures
        is_newest_first(insert_by_date(s, e)),
        insert_by_date(s, e).to_multiset() == s.to_multiset().insert(e),
    decreases s.len(),
{
    broadcast use vstd::seq_lib::group_to_multiset_ensures;
    broadcast use vstd::multiset::group_multiset_axioms;

    if s.len() == 0 {
        assert(seq![e] =~= Seq::<WaysMeta>::empty().push(e));
    } else if s[0].date.key() >= e.date.key() {
        let t = s.drop_first();
        assert(is_newest_first(t)) by {
            assert forall|i: int, j: int| 0 <= i < j < t.len() implies t[i].date.key()
                >= t[j].date.key() by {
                assert(t[i] == s[i + 1] && t[j] == s[j + 1]);
            }
        }
        lemma_insert_keeps_order(t, e);
        let r = insert_by_date(t, e);
        let whole = seq![s[0]] + r;
        assert forall|i: int, j: int| 0 <= i < j < whole.len() implies whole[i].date.key()
            >= whole[j].date.key() by {
            if i == 0 {
                let x = r[j - 1];
                assert(whole[j] == x);
                assert(r.contains(x));
                vstd::seq_lib::to_multiset_contains(r, x);
                if x != e {
                    assert(t.to_multiset().count(x) > 0);
                    vstd::seq_lib::to_multiset_contains(t, x);
                    let m = choose|m: int| 0 <= m < t.len() && t[m] == x;
                    assert(t[m] == s[m + 1]);
                }
            } else {
                assert(whole[i] == r[i - 1] && whole[j] == r[j - 1]);
            }
        }
        assert(s =~= seq![s[0]] + t);
        vstd::seq_lib::lemma_multiset_commutative(seq![s[0]], r);
        vstd::seq_lib::lemma_multiset_commutative(seq![s[0]], t);
    } else {
        let whole = seq![e] + s;
        assert forall|i: int, j: int| 0 <= i < j < whole.len() implies whole[i].date.key()
            >= whole[j].date.key() by {
            if i == 0 {
                assert(whole[j] == s[j - 1]);
            } else {
                assert(whole[i] == s[i - 1] && whole[j] == s[j - 1]);
            }
        }
        vstd::seq_lib::lemma_multiset_commutative(seq![e], s);
    }
}

/// The index lists every post exactly as often as it was given, newest
/// first.
pub proof fn newest_first_is_sorted_permutation(s: Seq<WaysMeta>)
    ensures
        is_newest_first(newest_first(s)),
        newest_first(s).to_multiset() == s.to_multiset(),
    decreases s.len(),
{
    broadcast use vstd::seq_lib::group_to_multiset_ensures;

    if s.len() > 0 {
        newest_first_is_sorted_permutation(s.drop_last());
        lemma_insert_keeps_order(newest_first(s.drop_last()), s.last());
        assert(s =~= s.drop_last().push(s.last()));
    }
}

/// Whether a post is dated the day whose key is `key`.
pub open spec fn on_day(key: int) -> spec_fn(WaysMeta) -> bool {
    |m: WaysMeta| m.date.key() == key
}

/// The filter of a single post.
proof fn lemma_filter_single(e: WaysMeta, p: spec_fn(WaysMeta) -> bool)
    ensures
        seq![e].filter(p) == if p(e) {
            seq![e]
        } else {
            Seq::<WaysMeta>::empty()
        },
{
    Seq::<WaysMeta>::empty().lemma_filter_push(e, p);
    assert(Seq::<WaysMeta>::empty().push(e) =~= seq![e]);
    assert(Seq::<WaysMeta>::empty().filter(p) =~= Seq::<WaysMeta>::empty()) by {
        reveal(Seq::filter);
    }
}

/// Placing a post by date among posts that are newest first leaves the
/// posts of each day in order, the placed post after those of its own day.
proof fn lemma_insert_keeps_days(s: Seq<WaysMeta>, e: WaysMeta, key: int)
    requires
        is_newest_first(s),
    ensures
        insert_by_date(s, e).filter(on_day(key)) == if e.date.key() == key {
            s.filter(on_day(key)).push(e)
        } else {
            s.filter(on_day(key))
        },
    decreases s.len(),
{
    broadcast use Seq::filter_distributes_over_add;

    let p = on_day(key);
    lemma_filter_single(e, p);
    if s.len() == 0 {
        assert(s.filter(p) =~= Seq::<WaysMeta>::empty()) by {
            reveal(Seq::filter);
        }
        assert(Seq::<WaysMeta>::empty().push(e) =~= seq![e]);
    } else if s[0].date.key() >= e.date.key() {
        let t = s.drop_first();
        assert(is_newest_first(t)) by {
            assert forall|i: int, j: int| 0 <= i < j < t.len() implies t[i].date.key()
                >= t[j].date.key() by {
                assert(t[i] == s[i + 1] && t[j] == s[j + 1]);
            }
        }
        lemma_insert_keeps_days(t, e, key);
        assert(s =~= seq![s[0]] + t);
        assert((seq![s[0]] + insert_by_date(t, e)).filter(p) == seq![s[0]].filter(p)
            + insert_by_date(t, e).filter(p));
        assert((seq![s[0]] + t).filter(p) == seq![s[0]].filter(p) + t.filter(p));
        assert((seq![s[0]].filter(p) + t.filter(p)).push(e) =~= seq![s[0]].filter(p) + t.filter(
            p,
        ).push(e));
    } else {
        assert((seq![e] + s).filter(p) == seq![e].filter(p) + s.filter(p));
        if e.date.key() == key {
            assert(s.filter(p).len() == 0) by {
                if s.filter(p).len() > 0 {
                    let x = s.filter(p)[0];
                    s.lemma_filter_pred(p, 0);
                    assert(s.filter(p).contains(x));
                    s.lemma_filter_contains_rev(p, x);
                    let m = choose|m: int| 0 <= m < s.len() && s[m] == x;
                    if m > 0 {
                        assert(s[0].date.key() >= s[m].date.key());
                    }
                }
            }
            assert(seq![e] + s.filter(p) =~= s.filter(p).push(e));
        } else {
            assert(Seq::<WaysMeta>::empty() + s.filter(p) =~= s.filter(p));
        }
    }
}

/// Posts of the same day stay in the order in which they were given.
pub proof fn newest_first_keeps_each_day_in_order(s: Seq<WaysMeta>, key: int)
    ensures
        newest_first(s).filter(on_day(key)) == s.filter(on_day(key)),
    decreases s.len(),
{
    if s.len() == 0 {
    } else {
        newest_first_keeps_each_day_in_order(s.drop_last(), key);
        newest_first_is_sorted_permutation(s.drop_last());
        lemma_insert_keeps_days(newest_first(s.drop_last()), s.last(), key);
        s.drop_last().lemma_filter_push(s.last(), on_day(key));
        assert(s.drop_last().push(s.last()) =~= s);
    }
}

/// The posts that `r` points at.
pub open spec fn pointed(r: Seq<&WaysMeta>) -> Seq<WaysMeta> {
    r.map_values(|m: &WaysMeta| *m)
}

/// The posts from the newest to the oldest, posts of the same day in the
/// order given.
pub fn sort_newest_first(posts: &Vec<WaysMeta>) -> (r: Vec<&WaysMeta>)
    ensures
        pointed(r@) == newest_first(posts@),
{
    let mut out: Vec<&WaysMeta> = Vec::new();
    let mut i: usize = 0;
    while i < posts.len()
        invariant
            i <= posts@.len(),
            pointed(out@) == newest_first(posts@.take(i as int)),
            out@.len() == i,
        decreases posts@.len() - i,
    {
        let e = &posts[i];
        let mut k: usize = 0;
        while k < out.len() && out[k].date.is_not_before(&e.date)
            invariant
                k <= out@.len(),
                forall|j: int| 0 <= j < k ==> out@[j].date.key() >= e.date.key(),
            decreases out@.len() - k,
        {
            k = k + 1;
        }
        proof {
            lemma_insert_at_first_older(pointed(out@), *e, k as int);
            assert(posts@.take(i + 1).drop_last() =~= posts@.take(i as int));
            assert(posts@.take(i + 1).last() == posts@[i as int]);
        }
        let ghost before = out@;
        out.insert(k, e);
        assert(pointed(out@) =~= pointed(before).insert(k as int, *e));
        i = i + 1;
    }
    assert(posts@.take(i as int) =~= posts@);
    out
}

/// The abbreviated English name of `month` (1 to 12).
pub open spec fn month_abbreviation(month: u8) -> &'static str {
    if month == 1 {
        "Jan"
    } else if month == 2 {
        "Feb"
    } else if month == 3 {
        "Mar"
    } else if month == 4 {
        "Apr"
    } else if month == 5 {
        "May"
    } else if month == 6 {
        "Jun"
    } else if month == 7 {
        "Jul"
    } else if month == 8 {
        "Aug"
    } else if month == 9 {
        "Sep"
    } else if month == 10 {
        "Oct"
    } else if month == 11 {
        "Nov"
    } else {
        "Dec"
    }
}

/// The decimal digit `d` (0 to 9).
pub open spec fn digit(d: int) -> char {
    (d + 48) as char
}

/// A date as `Mon DD, YYYY`: the abbreviated month, the day padded with a
/// space to two places, and the year padded with zeros to four.
pub open spec fn formatted_date(d: Date) -> Seq<char> {
    month_abbreviation(d.month)@ + seq![' '] + (if d.day < 10 {
        seq![' ', digit(d.day as int)]
    } else {
        seq![digit(d.day as int / 10), digit(d.day as int % 10)]
    }) + seq![',', ' '] + seq![
        digit(d.year as int / 1000),
        digit(d.year as int / 100 % 10),
        digit(d.year as int / 10 % 10),
        digit(d.year as int % 10),
    ]
}

/// The digit `d` (0 to 9) as a string.
fn digit_text(d: u16) -> (r: &'static str)
    requires
        d < 10,
    ensures
        r@ == seq![digit(d as int)],
{
    proof {
        reveal_strlit("0");
        reveal_strlit("1");
        reveal_strlit("2");
        reveal_strlit("3");
        reveal_strlit("4");
        reveal_strlit("5");
        reveal_strlit("6");
        reveal_strlit("7");
        reveal_strlit("8");
        reveal_strlit("9");
    }
    match d {
        0 => "0",
        1 => "1",
        2 => "2",
        3 => "3",
        4 => "4",
        5 => "5",
        6 => "6",
        7 => "7",
        8 => "8",
        _ => "9",
    }
}

/// A date as `Mon DD, YYYY`, as `formatted_date` states it.
pub fn format_date(d: &Date) -> (r: String)
    requires
        d.is_valid(),
    ensures
        r@ == formatted_date(*d),
{
    let month = match d.month {
        1 => "Jan",
        2 => "Feb",
        3 => "Mar",
        4 => "Apr",
        5 => "May",
        6 => "Jun",
        7 => "Jul",
        8 => "Aug",
        9 => "Sep",
        10 => "Oct",
        11 => "Nov",
        _ => "Dec",
    };
    proof {
        reveal_strlit(" ");
        reveal_strlit(", ");
    }
    let mut out = joined(month, " ");
    let day = d.day as u16;
    if day < 10 {
        out.append(" ");
        out.append(digit_text(day));
    } else {
        out.append(digit_text(day / 10));
        out.append(digit_text(day % 10));
    }
    out.append(", ");
    out.append(digit_text(d.year / 1000));
    out.append(digit_text(d.year / 100 % 10));
    out.append(digit_text(d.year / 10 % 10));
    out.append(digit_text(d.year % 10));
    assert(out@ =~= formatted_date(*d));
    out
}

/// The index line of a post: a link to it, with its title and date.
pub open spec fn index_line(m: WaysMeta) -> Seq<char> {
    "=> /ways/"@ + m.slug@ + " "@ + m.title@ + " ("@ + formatted_date(m.date) + ")"@
}

/// The index line of a post.
pub fn format_index_line(m: &WaysMeta) -> (r: String)
    requires
        m.date.is_valid(),
    ensures
        r@ == index_line(*m),
{
    let mut out = joined("=> /ways/", m.slug.as_str());
    out.append(" ");
    out.append(m.title.as_str());
    out.append(" (");
    let date = format_date(&m.date);
    out.append(date.as_str());
    out.append(")");
    out
}

/// The index lines of `posts`, one per line, in order.
pub open spec fn index_lines(posts: Seq<WaysMeta>) -> Seq<char>
    decreases posts.len(),
{
    if posts.len() == 0 {
        Seq::empty()
    } else if posts.len() == 1 {
        index_line(posts[0])
    } else {
        index_lines(posts.drop_last()) + "\n"@ + index_line(posts.last())
    }
}

/// The opening of the index document.
pub const INDEX_HEAD: &'static str = "# Ways\n\n";

/// The closing of the index document.
pub const INDEX_TAIL: &'static str = "\n\n=> / Return home\n";

/// The index document of the collection: a heading, then a link to each
/// post from the newest to the oldest, then a link home.
pub open spec fn ways_index_document(posts: Seq<WaysMeta>) -> Seq<char> {
    INDEX_HEAD@ + index_lines(newest_first(posts)) + INDEX_TAIL@
}

/// The index document of the collection.
pub fn ways_index(posts: &Vec<WaysMeta>) -> (r: String)
    requires
        forall|i: int| 0 <= i < posts@.len() ==> (#[trigger] posts@[i]).date.is_valid(),
    ensures
        r@ == ways_index_document(posts@),
{
    let sorted = sort_newest_first(posts);
    proof {
        newest_first_is_sorted_permutation(posts@);
        assert forall|i: int| 0 <= i < sorted@.len() implies (#[trigger] sorted@[i]).date.is_valid() by {
            let m = pointed(sorted@)[i];
            assert(newest_first(posts@)[i] == m);
            assert(newest_first(posts@).contains(m));
            vstd::seq_lib::to_multiset_contains(newest_first(posts@), m);
            vstd::seq_lib::to_multiset_contains(posts@, m);
            let k = choose|k: int| 0 <= k < posts@.len() && posts@[k] == m;
            assert(posts@[k].date.is_valid());
        }
    }
    let mut lines = String::new();
    let mut i: usize = 0;
    while i < sorted.len()
        invariant
            i <= sorted@.len(),
            forall|j: int| 0 <= j < sorted@.len() ==> (#[trigger] sorted@[j]).date.is_valid(),
            lines@ == index_lines(pointed(sorted@).take(i as int)),
        decreases sorted@.len() - i,
    {
        let line = format_index_line(sorted[i]);
        let ghost t = pointed(sorted@).take(i + 1);
        assert(t.drop_last() =~= pointed(sorted@).take(i as int));
        assert(t.last() == *sorted@[i as int]);
        if i > 0 {
            lines.append("\n");
        }
        lines.append(line.as_str());
        i = i + 1;
    }
    assert(pointed(sorted@).take(i as int) =~= pointed(sorted@));
    let mut out = joined(INDEX_HEAD, lines.as_str());
    out.append(INDEX_TAIL);
    out
}

/// The closing of every post: its license, and a link back to the index.
pub const POST_FOOTER: &'static str = "-----\n\n=> https://creativecommons.org/publicdomain/zero/1.0 Ways by Average Helper is marked with CC0 1.0\n=> /ways Return to Ways\n";

/// A post as it is served: its gemtext, a line break, then the footer.
pub fn ways_post(content: &str) -> (r: String)
    ensures
        r@ == content@ + "\n"@ + POST_FOOTER@,
{
    let mut out = joined(content, "\n");
    out.append(POST_FOOTER);
    out
}

} // verus!
