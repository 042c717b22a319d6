//! The usage chart of the machine detail page: how often each forwarded
//! service was used on each UTC day.

use vstd::prelude::*;
use vstd::string::*;
use chrono::{TimeZone, Utc};
use crate::models::AccessHistory;
use crate::access_log::now_millis;
use crate::text::{chars_of, decimal, push_decimal, str_eq};
use crate::tui::opt_view;

verus! {

/// The UTC calendar day of a Unix timestamp in milliseconds, written
/// `YYYY-MM-DD`, or none for an instant chrono cannot represent.
pub uninterp spec fn utc_day_label(millis: i64) -> Option<Seq<char>>;

/// chrono's `Utc.timestamp_millis_opt(millis).single()` formatted with
/// `%Y-%m-%d`: the claim is only that the result depends on `millis` alone
/// (it is named by `utc_day_label`); which day that is, is not stated.
#[verifier::external_body]
fn utc_day(millis: i64) -> (day: Option<String>)
    ensures
        opt_view(day) == utc_day_label(millis),
{
    match Utc.timestamp_millis_opt(millis).single() {
        Some(dt) => Some(dt.format("%Y-%m-%d").to_string()),
        None => None,
    }
}

/// The day label for a clock reading `t` (milliseconds since the epoch):
/// chrono's label, or `1970-01-01` for a reading chrono cannot place.
pub open spec fn clock_day(t: i64) -> Seq<char> {
    match utc_day_label(t) {
        Some(l) => l,
        None => "1970-01-01"@,
    }
}

/// Today's UTC day label: the label of the wall clock's current reading.
/// Which reading that is depends on the clock, so only that it is the label
/// of some reading is stated.
fn today_label() -> (day: String)
    ensures
        exists|t: i64| day@ == clock_day(t),
{
    let t = now_millis();
    let day = match utc_day(t) {
        Some(d) => d,
        None => String::from_str("1970-01-01"),
    };
    assert(day@ == clock_day(t));
    day
}

/// The order of `String`: character by character, a proper prefix first.
pub open spec fn text_lt(a: Seq<char>, b: Seq<char>) -> bool
    decreases a.len(),
{
    if b.len() == 0 {
        false
    } else if a.len() == 0 {
        true
    } else if a[0] != b[0] {
        a[0] < b[0]
    } else {
        text_lt(a.drop_first(), b.drop_first())
    }
}

/// Of two texts, one comes first, unless they are equal.
pub proof fn lemma_text_lt_total(a: Seq<char>, b: Seq<char>)
    ensures
        a == b || text_lt(a, b) || text_lt(b, a),
        !(text_lt(a, b) && text_lt(b, a)),
        !text_lt(a, a),
    decreases a.len(),
{
    if a.len() == 0 && b.len() == 0 {
        assert(a =~= b);
    }
    if a.len() > 0 {
        lemma_text_lt_total(a.drop_first(), a.drop_first());
    }
    if a.len() > 0 && b.len() > 0 && a[0] == b[0] {
        lemma_text_lt_total(a.drop_first(), b.drop_first());
        if a.drop_first() == b.drop_first() {
            assert forall|i: int| 0 <= i < a.len() implies a[i] == b[i] by {
                if i > 0 {
                    assert(a[i] == a.drop_first()[i - 1]);
                    assert(b[i] == b.drop_first()[i - 1]);
                }
            };
            assert(a =~= b);
        }
    }
}

/// The order of texts is transitive.
pub proof fn lemma_text_lt_transitive(a: Seq<char>, b: Seq<char>, c: Seq<char>)
    requires
        text_lt(a, b),
        text_lt(b, c),
    ensures
        text_lt(a, c),
    decreases a.len(),
{
    if a.len() > 0 && b.len() > 0 && c.len() > 0 && a[0] == b[0] && b[0] == c[0] {
        lemma_text_lt_transitive(a.drop_first(), b.drop_first(), c.drop_first());
    }
}

/// Whether `a` comes before `b` in the order of `String`.
fn text_less(a: &str, b: &str) -> (lt: bool)
    ensures
        lt == text_lt(a@, b@),
{
    let ca = chars_of(a);
    let cb = chars_of(b);
    let na = ca.len();
    let nb = cb.len();
    let mut i: usize = 0;
    assert(a@.skip(0) =~= a@);
    assert(b@.skip(0) =~= b@);
    while i < na && i < nb
        invariant
            na == ca@.len(),
            nb == cb@.len(),
            ca@ == a@,
            cb@ == b@,
            i <= na,
            i <= nb,
            text_lt(a@, b@) == text_lt(a@.skip(i as int), b@.skip(i as int)),
        decreases na - i,
    {
        let x = ca[i];
        let y = cb[i];
        proof {
            assert(a@.skip(i as int)[0] == x);
            assert(b@.skip(i as int)[0] == y);
        }
        if x != y {
            return x < y;
        }
        proof {
            assert(a@.skip(i as int).drop_first() =~= a@.skip(i + 1));
            assert(b@.skip(i as int).drop_first() =~= b@.skip(i + 1));
        }
        i = i + 1;
    }
    proof {
        if i == na {
            assert(a@.skip(i as int).len() == 0);
        }
        if i == nb {
            assert(b@.skip(i as int).len() == 0);
        }
    }
    i < nb
}

/// Texts in increasing order without repeats.
pub open spec fn strictly_sorted(s: Seq<Seq<char>>) -> bool {
    forall|i: int, j: int| 0 <= i < j < s.len() ==> text_lt(#[trigger] s[i], #[trigger] s[j])
}

pub open spec fn texts(v: Seq<String>) -> Seq<Seq<char>> {
    v.map_values(|s: String| s@)
}

/// Adds `x` to increasing texts at its place, unless it is there already.
fn insert_sorted(labels: &mut Vec<String>, x: &String)
    requires
        strictly_sorted(texts(old(labels)@)),
    ensures
        strictly_sorted(texts(final(labels)@)),
        forall|d: Seq<char>| texts(final(labels)@).contains(d) <==> (texts(old(labels)@).contains(d) || d == x@),
{
    let ghost s = texts(labels@);
    let n = labels.len();
    let mut p: usize = 0;
    while p < n
        invariant
            n == labels@.len(),
            labels@ == old(labels)@,
            s == texts(labels@),
            p <= n,
            forall|i: int| 0 <= i < p ==> text_lt(#[trigger] s[i], x@),
        ensures
            p <= n,
            p < n ==> !text_lt(s[p as int], x@),
            forall|i: int| 0 <= i < p ==> text_lt(#[trigger] s[i], x@),
        decreases n - p,
    {
        if !text_less(labels[p].as_str(), x.as_str()) {
            break;
        }
        p = p + 1;
    }
    if p < n && str_eq(labels[p].as_str(), x.as_str()) {
        assert(s[p as int] == x@);
        return;
    }
    labels.insert(p, x.clone());
    proof {
        let t = texts(labels@);
        assert(t =~= s.insert(p as int, x@));
        assert forall|i: int, j: int| 0 <= i < j < t.len() implies text_lt(#[trigger] t[i], #[trigger] t[j]) by {
            if j < p {
            } else if j == p {
                assert(t[i] == s[i]);
            } else if i < p {
                assert(t[j] == s[j - 1]);
                assert(t[i] == s[i]);
                if i < j - 1 {
                } else {
                    lemma_text_lt_total(s[i], s[i]);
                }
                assert(text_lt(s[i], x@));
                if p < j - 1 {
                    lemma_text_lt_total(s[p as int], x@);
                    lemma_text_lt_transitive(s[i], x@, s[p as int]);
                    lemma_text_lt_transitive(s[i], s[p as int], s[j - 1]);
                } else {
                    lemma_text_lt_total(s[p as int], x@);
                    lemma_text_lt_transitive(s[i], x@, s[p as int]);
                }
            } else if i == p {
                assert(t[j] == s[j - 1]);
                lemma_text_lt_total(s[p as int], x@);
                if p < j - 1 {
                    lemma_text_lt_transitive(x@, s[p as int], s[j - 1]);
                }
            } else {
                assert(t[i] == s[i - 1]);
                assert(t[j] == s[j - 1]);
            }
        };
        assert forall|d: Seq<char>| t.contains(d) <==> (s.contains(d) || d == x@) by {
            if t.contains(d) {
                let k = choose|k: int| 0 <= k < t.len() && t[k] == d;
                if k < p {
                    assert(s[k] == d);
                } else if k > p {
                    assert(s[k - 1] == d);
                }
            }
            if s.contains(d) {
                let k = choose|k: int| 0 <= k < s.len() && s[k] == d;
                if k < p {
                    assert(t[k] == d);
                } else {
                    assert(t[k + 1] == d);
                }
            }
            if d == x@ {
                assert(t[p as int] == d);
            }
        };
    }
}

/// How many of the texts equal `x`.
pub open spec fn count_of(s: Seq<Seq<char>>, x: Seq<char>) -> nat
    decreases s.len(),
{
    if s.len() == 0 {
        0
    } else {
        count_of(s.drop_last(), x) + (if s.last() == x { 1nat } else { 0nat })
    }
}

proof fn lemma_count_bounded(s: Seq<Seq<char>>, x: Seq<char>)
    ensures
        count_of(s, x) <= s.len(),
    decreases s.len(),
{
    if s.len() > 0 {
        lemma_count_bounded(s.drop_last(), x);
    }
}

/// How many of the days equal `d`.
fn count_day(days: &Vec<String>, d: &String) -> (c: u32)
    requires
        days@.len() <= u32::MAX,
    ensures
        c == count_of(texts(days@), d@),
{
    let ghost s = texts(days@);
    let n = days.len();
    let mut c: u32 = 0;
    let mut i: usize = 0;
    while i < n
        invariant
            n == days@.len(),
            n <= u32::MAX,
            s == texts(days@),
            i <= n,
            c == count_of(s.take(i as int), d@),
        decreases n - i,
    {
        proof {
            assert(s.take(i + 1).drop_last() =~= s.take(i as int));
            lemma_count_bounded(s.take(i as int), d@);
        }
        if str_eq(days[i].as_str(), d.as_str()) {
            c = c + 1;
        }
        i = i + 1;
    }
    assert(s.take(n as int) =~= s);
    c
}

/// One line of the chart: a service and its count per day.
pub struct Dataset {
    pub label: String,
    pub data: Vec<u32>,
}

pub open spec fn dataset_views(v: Seq<Dataset>) -> Seq<(Seq<char>, Seq<u32>)> {
    v.map_values(|d: Dataset| (d.label@, d.data@))
}

/// Services, each a label and the day of each of its accesses, as plain
/// values.
pub open spec fn service_days(v: Seq<(String, Vec<String>)>) -> Seq<(Seq<char>, Seq<Seq<char>>)> {
    v.map_values(|p: (String, Vec<String>)| (p.0@, texts(p.1@)))
}

/// The chart of services: the days on which any service was used, in
/// order and once each, and for each service, in order, its label and how
/// often it was used on each of those days.
pub open spec fn bucketed(
    services: Seq<(Seq<char>, Seq<Seq<char>>)>,
    labels: Seq<Seq<char>>,
    sets: Seq<(Seq<char>, Seq<u32>)>,
) -> bool {
    &&& strictly_sorted(labels)
    &&& forall|d: Seq<char>| #![trigger labels.contains(d)]
        labels.contains(d) <==> exists|i: int| 0 <= i < services.len() && #[trigger] services[i].1.contains(d)
    &&& sets.len() == services.len()
    &&& forall|i: int| #![trigger sets[i]] 0 <= i < sets.len() ==> {
        &&& sets[i].0 == services[i].0
        &&& sets[i].1.len() == labels.len()
        &&& forall|j: int| 0 <= j < labels.len() ==> #[trigger] sets[i].1[j] == count_of(services[i].1, labels[j])
    }
}

/// Counts the accesses of each service per day.
pub fn bucket_days(services: &Vec<(String, Vec<String>)>) -> (r: (Vec<String>, Vec<Dataset>))
    requires
        forall|i: int| 0 <= i < services@.len() ==> (#[trigger] services@[i]).1@.len() <= u32::MAX,
    ensures
        bucketed(service_days(services@), texts(r.0@), dataset_views(r.1@)),
{
    let ghost sv = service_days(services@);
    let mut labels: Vec<String> = Vec::new();
    let n = services.len();
    let mut i: usize = 0;
    while i < n
        invariant
            n == services@.len(),
            sv == service_days(services@),
            i <= n,
            strictly_sorted(texts(labels@)),
            forall|d: Seq<char>| #![trigger texts(labels@).contains(d)]
                texts(labels@).contains(d) <==> exists|i2: int| 0 <= i2 < i && #[trigger] sv[i2].1.contains(d),
        decreases n - i,
    {
        let days = &services[i].1;
        let m = days.len();
        let mut k: usize = 0;
        assert(sv[i as int].1 == texts(days@));
        while k < m
            invariant
                n == services@.len(),
                sv == service_days(services@),
                i < n,
                m == days@.len(),
                sv[i as int].1 == texts(days@),
                k <= m,
                strictly_sorted(texts(labels@)),
                forall|d: Seq<char>| #![trigger texts(labels@).contains(d)]
                    texts(labels@).contains(d) <==> ((exists|i2: int| 0 <= i2 < i && #[trigger] sv[i2].1.contains(d))
                        || texts(days@).take(k as int).contains(d)),
            decreases m - k,
        {
            let ghost before = texts(labels@);
            insert_sorted(&mut labels, &days[k]);
            proof {
                let dk = texts(days@);
                assert(dk.take(k + 1) =~= dk.take(k as int).push(dk[k as int]));
                assert forall|d: Seq<char>| dk.take(k + 1).contains(d) <==> (dk.take(k as int).contains(d) || d == dk[k as int]) by {
                    vstd::seq_lib::lemma_seq_contains_after_push(dk.take(k as int), dk[k as int], d);
                };
                assert forall|d: Seq<char>| #![trigger texts(labels@).contains(d)]
                    texts(labels@).contains(d) <==> ((exists|i2: int| 0 <= i2 < i && #[trigger] sv[i2].1.contains(d))
                        || dk.take(k + 1).contains(d)) by {
                    assert(before.contains(d) <==> ((exists|i2: int| 0 <= i2 < i && #[trigger] sv[i2].1.contains(d))
                        || dk.take(k as int).contains(d)));
                };
            }
            k = k + 1;
        }
        proof {
            assert(texts(days@).take(m as int) =~= texts(days@));
            assert forall|d: Seq<char>| #![trigger texts(labels@).contains(d)]
                texts(labels@).contains(d) <==> exists|i2: int| 0 <= i2 < i + 1 && #[trigger] sv[i2].1.contains(d) by {
                if sv[i as int].1.contains(d) {
                    assert(0 <= i < i + 1);
                }
                if exists|i2: int| 0 <= i2 < i + 1 && #[trigger] sv[i2].1.contains(d) {
                    let i2 = choose|i2: int| 0 <= i2 < i + 1 && #[trigger] sv[i2].1.contains(d);
                    if i2 < i {
                        assert(exists|i3: int| 0 <= i3 < i && #[trigger] sv[i3].1.contains(d));
                    }
                }
            };
        }
        i = i + 1;
    }
    let ghost lv = texts(labels@);
    let mut sets: Vec<Dataset> = Vec::new();
    let mut i: usize = 0;
    while i < n
        invariant
            n == services@.len(),
            sv == service_days(services@),
            forall|i: int| 0 <= i < services@.len() ==> (#[trigger] services@[i]).1@.len() <= u32::MAX,
            lv == texts(labels@),
            i <= n,
            sets@.len() == i,
            forall|i2: int| #![trigger sets@[i2]] 0 <= i2 < i ==> {
                &&& sets@[i2].label@ == sv[i2].0
                &&& sets@[i2].data@.len() == lv.len()
                &&& forall|j: int| 0 <= j < lv.len() ==> #[trigger] sets@[i2].data@[j] == count_of(sv[i2].1, lv[j])
            },
        decreases n - i,
    {
        let days = &services[i].1;
        assert(sv[i as int].1 == texts(days@));
        assert(sv[i as int].0 == services@[i as int].0@);
        let nl = labels.len();
        let mut data: Vec<u32> = Vec::new();
        let mut j: usize = 0;
        while j < nl
            invariant
                nl == labels@.len(),
                lv == texts(labels@),
                days@.len() <= u32::MAX,
                j <= nl,
                data@.len() == j,
                forall|j2: int| 0 <= j2 < j ==> #[trigger] data@[j2] == count_of(texts(days@), lv[j2]),
            decreases nl - j,
        {
            let c = count_day(days, &labels[j]);
            data.push(c);
            j = j + 1;
        }
        sets.push(Dataset { label: services[i].0.clone(), data });
        proof {
            assert(sets@[i as int].label@ == sv[i as int].0);
        }
        i = i + 1;
    }
    proof {
        let dv = dataset_views(sets@);
        assert forall|i2: int| #![trigger dv[i2]] 0 <= i2 < dv.len() implies {
            &&& dv[i2].0 == sv[i2].0
            &&& dv[i2].1.len() == lv.len()
            &&& forall|j: int| 0 <= j < lv.len() ==> #[trigger] dv[i2].1[j] == count_of(sv[i2].1, lv[j])
        } by {
            assert(dv[i2] == (sets@[i2].label@, sets@[i2].data@));
        };
    }
    (labels, sets)
}

/// The chart label of a service: its name, else its local port.
pub open spec fn service_label(name: Option<String>, local_port: u16) -> Seq<char> {
    match name {
        Some(n) => n@,
        None => "port "@ + decimal(local_port as nat),
    }
}

/// Whether `day` fits an access at `ts`: it is the UTC day of `ts` when
/// chrono can place it, and otherwise the day of some clock reading.
pub open spec fn day_fits(ts: i64, day: Seq<char>) -> bool {
    match utc_day_label(ts) {
        Some(l) => day == l,
        None => exists|t: i64| day == clock_day(t),
    }
}

/// Days that fit the accesses of a history: one per access, the UTC day
/// of its timestamp wherever chrono gives one, and today's otherwise.
pub open spec fn days_fit(h: AccessHistory, days: Seq<Seq<Seq<char>>>) -> bool {
    &&& days.len() == h.services@.len()
    &&& forall|i: int| #![trigger days[i]] 0 <= i < days.len() ==> {
        &&& days[i].len() == h.services@[i].timestamps@.len()
        &&& forall|k: int| 0 <= k < days[i].len() ==>
            day_fits(h.services@[i].timestamps@[k], #[trigger] days[i][k])
    }
}

/// The usage chart of a machine's access history: for each access the UTC
/// day of its timestamp (today's, from the wall clock, for a timestamp
/// chrono cannot place), then the counts per service and day.
pub fn bucket_by_day(history: &AccessHistory) -> (r: (Vec<String>, Vec<Dataset>))
    requires
        forall|i: int| 0 <= i < history.services@.len() ==> (#[trigger] history.services@[i]).timestamps@.len() <= u32::MAX,
    ensures
        exists|days: Seq<Seq<Seq<char>>>| #[trigger] days_fit(*history, days) && bucketed(
            Seq::new(days.len(), |i: int| (service_label(history.services@[i].name, history.services@[i].local_port), days[i])),
            texts(r.0@),
            dataset_views(r.1@),
        ),
{
    let mut input: Vec<(String, Vec<String>)> = Vec::new();
    let n = history.services.len();
    let mut i: usize = 0;
    while i < n
        invariant
            n == history.services@.len(),
            i <= n,
            input@.len() == i,
            forall|i2: int| 0 <= i2 < history.services@.len() ==> (#[trigger] history.services@[i2]).timestamps@.len() <= u32::MAX,
            forall|i2: int| #![trigger input@[i2]] 0 <= i2 < i ==> {
                &&& input@[i2].0@ == service_label(history.services@[i2].name, history.services@[i2].local_port)
                &&& input@[i2].1@.len() == history.services@[i2].timestamps@.len()
                &&& forall|k: int| 0 <= k < input@[i2].1@.len() ==>
                    day_fits(history.services@[i2].timestamps@[k], #[trigger] input@[i2].1@[k]@)
            },
        decreases n - i,
    {
        let svc = &history.services[i];
        let label = match &svc.name {
            Some(name) => name.clone(),
            None => {
                let mut s = String::from_str("port ");
                push_decimal(&mut s, svc.local_port as u64);
                s
            }
        };
        let m = svc.timestamps.len();
        let mut days: Vec<String> = Vec::new();
        let mut k: usize = 0;
        while k < m
            invariant
                m == svc.timestamps@.len(),
                k <= m,
                days@.len() == k,
                forall|k2: int| 0 <= k2 < k ==>
                    day_fits(svc.timestamps@[k2], #[trigger] days@[k2]@),
            decreases m - k,
        {
            let day = match utc_day(svc.timestamps[k]) {
                Some(d) => d,
                None => today_label(),
            };
            days.push(day);
            k = k + 1;
        }
        input.push((label, days));
        i = i + 1;
    }
    let r = bucket_days(&input);
    proof {
        let sv = service_days(input@);
        let days = Seq::new(n as nat, |i: int| sv[i].1);
        assert forall|i2: int| #![trigger days[i2]] 0 <= i2 < days.len() implies {
            &&& days[i2].len() == history.services@[i2].timestamps@.len()
            &&& forall|k: int| 0 <= k < days[i2].len() ==>
                day_fits(history.services@[i2].timestamps@[k], #[trigger] days[i2][k])
        } by {
            assert(input@[i2].1@.len() == history.services@[i2].timestamps@.len());
            assert forall|k: int| 0 <= k < days[i2].len() implies
                day_fits(history.services@[i2].timestamps@[k], #[trigger] days[i2][k]) by {
                assert(days[i2][k] == input@[i2].1@[k]@);
            };
        };
        assert(days_fit(*history, days));
        let named = Seq::new(days.len(), |i: int| (service_label(history.services@[i].name, history.services@[i].local_port), days[i]));
        assert(named =~= sv);
    }
    r
}

/// The sum of counts.
pub open spec fn total(s: Seq<u32>) -> int
    decreases s.len(),
{
    if s.len() == 0 {
        0
    } else {
        total(s.drop_last()) + s.last()
    }
}

/// How often the days fall on any of the labels, label by label.
pub open spec fn counts_over(days: Seq<Seq<char>>, labels: Seq<Seq<char>>) -> int
    decreases labels.len(),
{
    if labels.len() == 0 {
        0
    } else {
        counts_over(days, labels.drop_last()) + count_of(days, labels.last())
    }
}

proof fn lemma_total_of_counts(data: Seq<u32>, days: Seq<Seq<char>>, labels: Seq<Seq<char>>)
    requires
        data.len() == labels.len(),
        forall|j: int| 0 <= j < labels.len() ==> #[trigger] data[j] == count_of(days, labels[j]),
    ensures
        total(data) == counts_over(days, labels),
    decreases labels.len(),
{
    if labels.len() > 0 {
        let (d2, l2) = (data.drop_last(), labels.drop_last());
        assert forall|j: int| 0 <= j < l2.len() implies #[trigger] d2[j] == count_of(days, l2[j]) by {
            assert(d2[j] == data[j]);
            assert(l2[j] == labels[j]);
        };
        lemma_total_of_counts(d2, days, l2);
        assert(data.last() == count_of(days, labels.last()));
    }
}

proof fn lemma_counts_over_step(days: Seq<Seq<char>>, labels: Seq<Seq<char>>)
    requires
        days.len() > 0,
    ensures
        counts_over(days, labels) == counts_over(days.drop_last(), labels) + count_of(labels, days.last()),
    decreases labels.len(),
{
    if labels.len() > 0 {
        lemma_counts_over_step(days, labels.drop_last());
    }
}

proof fn lemma_count_absent(s: Seq<Seq<char>>, x: Seq<char>)
    requires
        !s.contains(x),
    ensures
        count_of(s, x) == 0,
    decreases s.len(),
{
    if s.len() > 0 {
        assert(!s.drop_last().contains(x)) by {
            if s.drop_last().contains(x) {
                let k = choose|k: int| 0 <= k < s.drop_last().len() && s.drop_last()[k] == x;
                assert(s[k] == x);
            }
        };
        assert(s[s.len() - 1] == s.last());
        lemma_count_absent(s.drop_last(), x);
    }
}

/// Texts none of which occurs twice.
pub open spec fn distinct(s: Seq<Seq<char>>) -> bool {
    forall|i: int, j: int| 0 <= i < j < s.len() ==> #[trigger] s[i] != #[trigger] s[j]
}

proof fn lemma_count_once(s: Seq<Seq<char>>, x: Seq<char>)
    requires
        distinct(s),
        s.contains(x),
    ensures
        count_of(s, x) == 1,
    decreases s.len(),
{
    let t = s.drop_last();
    assert(distinct(t)) by {
        assert forall|i: int, j: int| 0 <= i < j < t.len() implies #[trigger] t[i] != #[trigger] t[j] by {
            assert(t[i] == s[i] && t[j] == s[j]);
        };
    };
    if s.last() == x {
        assert(!t.contains(x)) by {
            if t.contains(x) {
                let k = choose|k: int| 0 <= k < t.len() && t[k] == x;
                assert(s[k] == s[s.len() - 1]);
            }
        };
        lemma_count_absent(t, x);
    } else {
        let k = choose|k: int| 0 <= k < s.len() && s[k] == x;
        assert(k < s.len() - 1);
        assert(t[k] == x);
        lemma_count_once(t, x);
    }
}

proof fn lemma_every_day_counted(days: Seq<Seq<char>>, labels: Seq<Seq<char>>)
    requires
        distinct(labels),
        forall|d: Seq<char>| days.contains(d) ==> labels.contains(d),
    ensures
        counts_over(days, labels) == days.len(),
    decreases days.len(),
{
    if days.len() == 0 {
        lemma_counts_over_empty(days, labels);
    } else {
        let t = days.drop_last();
        assert forall|d: Seq<char>| t.contains(d) implies labels.contains(d) by {
            let k = choose|k: int| 0 <= k < t.len() && t[k] == d;
            assert(days[k] == d);
        };
        lemma_every_day_counted(t, labels);
        lemma_counts_over_step(days, labels);
        assert(days[days.len() - 1] == days.last());
        lemma_count_once(labels, days.last());
    }
}

proof fn lemma_counts_over_empty(days: Seq<Seq<char>>, labels: Seq<Seq<char>>)
    requires
        days.len() == 0,
    ensures
        counts_over(days, labels) == 0,
    decreases labels.len(),
{
    if labels.len() > 0 {
        lemma_counts_over_empty(days, labels.drop_last());
    }
}

/// Every access of a service is counted, on exactly one day of the chart.
pub(crate) proof fn lemma_chart_counts_every_access(
    services: Seq<(Seq<char>, Seq<Seq<char>>)>,
    labels: Seq<Seq<char>>,
    sets: Seq<(Seq<char>, Seq<u32>)>,
    i: int,
)
    requires
        bucketed(services, labels, sets),
        0 <= i < services.len(),
    ensures
        total(sets[i].1) == services[i].1.len(),
{
    let days = services[i].1;
    assert(sets[i].1.len() == labels.len());
    lemma_total_of_counts(sets[i].1, days, labels);
    assert(distinct(labels)) by {
        assert forall|a: int, b: int| 0 <= a < b < labels.len() implies #[trigger] labels[a] != #[trigger] labels[b] by {
            assert(text_lt(labels[a], labels[b]));
            lemma_text_lt_total(labels[a], labels[b]);
        };
    };
    assert forall|d: Seq<char>| days.contains(d) implies labels.contains(d) by {
        assert(services[i].1.contains(d));
    };
    lemma_every_day_counted(days, labels);
}

} // verus!
