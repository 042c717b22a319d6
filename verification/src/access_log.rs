//! Per-service access history with a bounded number of records per key.
//!
//! Each key (see [`service_key`]) owns a queue of millisecond timestamps.
//! Recording appends to the queue and drops the oldest entries until at most
//! `max_records` remain; a log built with `max_records == 0` records nothing.

use std::collections::VecDeque;
use std::time::SystemTime;
use vstd::prelude::*;
use vstd::string::*;
use crate::text::{decimal, push_char, push_decimal};

verus! {

/// The key under which the accesses of one forwarded service are recorded:
/// the machine's MAC, a hyphen and the local port in decimal.
pub open spec fn spec_service_key(mac: Seq<char>, local_port: u16) -> Seq<char> {
    mac + seq!['-'] + decimal(local_port as nat)
}

pub fn service_key(mac: &str, local_port: u16) -> (key: String)
    ensures
        key@ == spec_service_key(mac@, local_port),
{
    let mut key = String::from_str(mac);
    push_char(&mut key, '-');
    push_decimal(&mut key, local_port as u64);
    key
}

#[verifier::external_type_specification]
#[verifier::external_body]
pub struct ExSystemTime(SystemTime);

/// The wall clock (`SystemTime::now`); nothing is promised of its value.
#[verifier::external_body]
fn system_now() -> SystemTime {
    SystemTime::now()
}

/// The time elapsed from the Unix epoch to `t` (`SystemTime::duration_since`),
/// or `None` when `t` lies before the epoch. Nothing is promised of the value.
#[verifier::external_body]
fn since_unix_epoch(t: &SystemTime) -> Option<std::time::Duration> {
    t.duration_since(std::time::UNIX_EPOCH).ok()
}

/// The whole milliseconds of a duration (`Duration::as_millis`).
/// Nothing is promised of the value: the duration is opaque here.
#[verifier::external_body]
fn duration_millis(d: &std::time::Duration) -> u128 {
    d.as_millis()
}

/// The timestamp stored for a clock reading: the milliseconds since the
/// epoch truncated to `i64`, or 0 when the clock reads before the epoch.
pub open spec fn spec_timestamp_of(millis: Option<u128>) -> i64 {
    match millis {
        Some(m) => m as i64,
        None => 0,
    }
}

pub fn timestamp_of(millis: Option<u128>) -> (ts: i64)
    ensures
        ts == spec_timestamp_of(millis),
{
    match millis {
        Some(m) => m as i64,
        None => 0,
    }
}

/// Milliseconds since the Unix epoch according to the wall clock, or 0 when
/// the clock is set before the epoch. The value depends on the clock, so no
/// clause states it; `timestamp_of` is what turns the clock reading into it.
pub fn now_millis() -> (ts: i64) {
    let now = system_now();
    let millis = match since_unix_epoch(&now) {
        Some(d) => Some(duration_millis(&d)),
        None => None,
    };
    timestamp_of(millis)
}

/// The last `n` elements of `s` (all of `s` when it is shorter).
pub open spec fn keep_last(s: Seq<i64>, n: nat) -> Seq<i64> {
    if s.len() > n {
        s.subrange(s.len() - n, s.len() as int)
    } else {
        s
    }
}

/// The history of `key` in a map of histories; absent keys have none.
pub open spec fn history_in(m: Map<Seq<char>, Seq<i64>>, key: Seq<char>) -> Seq<i64> {
    if m.dom().contains(key) {
        m[key]
    } else {
        Seq::empty()
    }
}

/// The histories after one access at `ts` is recorded under `key` with the
/// limit `limit`.
pub open spec fn recorded(
    m: Map<Seq<char>, Seq<i64>>,
    limit: nat,
    key: Seq<char>,
    ts: i64,
) -> Map<Seq<char>, Seq<i64>> {
    if limit == 0 {
        m
    } else {
        m.insert(key, keep_last(history_in(m, key).push(ts), limit))
    }
}

pub struct AccessLog {
    entries: Vec<(String, VecDeque<i64>)>,
    max_records: usize,
}

/// The keys and histories of a list of entries, as plain values.
pub open spec fn entry_views(entries: Seq<(String, VecDeque<i64>)>) -> Seq<(Seq<char>, Seq<i64>)> {
    entries.map_values(|e: (String, VecDeque<i64>)| (e.0@, e.1@))
}

/// The keys and histories of plain lists, as values.
pub open spec fn history_views(h: Seq<(String, Vec<i64>)>) -> Seq<(Seq<char>, Seq<i64>)> {
    h.map_values(|e: (String, Vec<i64>)| (e.0@, e.1@))
}

/// The map of a list of histories in which a later entry for a key replaces
/// an earlier one.
pub open spec fn histories_map(h: Seq<(Seq<char>, Seq<i64>)>) -> Map<Seq<char>, Seq<i64>>
    decreases h.len(),
{
    if h.len() == 0 {
        Map::empty()
    } else {
        histories_map(h.drop_last()).insert(h.last().0, h.last().1)
    }
}

/// No key occurs twice.
pub open spec fn keys_distinct(s: Seq<(Seq<char>, Seq<i64>)>) -> bool {
    forall|i: int, j: int| 0 <= i < s.len() && 0 <= j < s.len() && i != j ==> s[i].0 != s[j].0
}

pub open spec fn has_key(s: Seq<(Seq<char>, Seq<i64>)>, k: Seq<char>) -> bool {
    exists|i: int| 0 <= i < s.len() && s[i].0 == k
}

/// The map from each key to its history.
pub open spec fn to_map(s: Seq<(Seq<char>, Seq<i64>)>) -> Map<Seq<char>, Seq<i64>> {
    Map::new(
        |k: Seq<char>| has_key(s, k),
        |k: Seq<char>| s[choose|i: int| 0 <= i < s.len() && s[i].0 == k].1,
    )
}

proof fn lemma_to_map_at(s: Seq<(Seq<char>, Seq<i64>)>, i: int)
    requires
        keys_distinct(s),
        0 <= i < s.len(),
    ensures
        to_map(s).dom().contains(s[i].0),
        to_map(s)[s[i].0] == s[i].1,
{
    assert(has_key(s, s[i].0));
    let j = choose|j: int| 0 <= j < s.len() && s[j].0 == s[i].0;
    assert(j == i);
}

impl View for AccessLog {
    type V = Map<Seq<char>, Seq<i64>>;

    closed spec fn view(&self) -> Map<Seq<char>, Seq<i64>> {
        to_map(entry_views(self.entries@))
    }
}

impl AccessLog {
    /// The log's internal consistency: no key is stored twice.
    pub closed spec fn wf(&self) -> bool {
        keys_distinct(entry_views(self.entries@))
    }

    /// The number of timestamps kept per key.
    pub closed spec fn limit(&self) -> nat {
        self.max_records as nat
    }

    pub fn new(max_records: usize) -> (log: AccessLog)
        ensures
            log.wf(),
            log@ == Map::<Seq<char>, Seq<i64>>::empty(),
            log.limit() == max_records,
    {
        let log = AccessLog { entries: Vec::new(), max_records };
        assert(log@ =~= Map::<Seq<char>, Seq<i64>>::empty());
        log
    }

    /// The configured number of timestamps kept per key.
    pub fn max_records(&self) -> (n: usize)
        ensures
            n == self.limit(),
    {
        self.max_records
    }

    /// The position of `key` among the entries, if it has one.
    fn find(&self, key: &String) -> (r: Option<usize>)
        ensures
            match r {
                Some(i) => i < self.entries@.len() && self.entries@[i as int].0@ == key@,
                None => !has_key(entry_views(self.entries@), key@),
            },
    {
        let n = self.entries.len();
        let mut i: usize = 0;
        while i < n
            invariant
                n == self.entries@.len(),
                i <= n,
                forall|j: int| 0 <= j < i ==> self.entries@[j].0@ != key@,
            decreases n - i,
        {
            if self.entries[i].0 == *key {
                return Some(i);
            }
            i = i + 1;
        }
        proof {
            let s = entry_views(self.entries@);
            if has_key(s, key@) {
                let j = choose|j: int| 0 <= j < s.len() && s[j].0 == key@;
                assert(self.entries@[j].0@ == key@);
            }
        }
        None
    }

    /// Drops the oldest timestamps of `buf` until at most `max` remain.
    fn trim(buf: &mut VecDeque<i64>, max: usize)
        ensures
            final(buf)@ == keep_last(old(buf)@, max as nat),
    {
        let ghost full = buf@;
        while buf.len() > max
            invariant
                full.len() >= buf@.len(),
                buf@.len() >= max || buf@ == full,
                buf@ == full.subrange(full.len() - buf@.len(), full.len() as int),
            decreases buf@.len(),
        {
            let _ = buf.pop_front();
        }
        proof {
            if full.len() <= max {
                assert(buf@ =~= full);
            }
        }
    }

    /// Removes the history of `key` and hands it out (empty when absent).
    fn take_entry(&mut self, key: &String) -> (buf: VecDeque<i64>)
        requires
            old(self).wf(),
        ensures
            final(self).wf(),
            final(self).limit() == old(self).limit(),
            final(self)@ == old(self)@.remove(key@),
            buf@ == history_in(old(self)@, key@),
    {
        let ghost old_s = entry_views(self.entries@);
        match self.find(key) {
            Some(i) => {
                proof { lemma_to_map_at(old_s, i as int); }
                let (_, b) = self.entries.swap_remove(i);
                proof {
                    let new_s = entry_views(self.entries@);
                    // the entries left are the old ones but the one at `i`
                    assert forall|j: int| 0 <= j < new_s.len() implies #[trigger] new_s[j] == old_s[if j == i as int { old_s.len() - 1 } else { j }] by {};
                    assert forall|a: int, c: int| 0 <= a < new_s.len() && 0 <= c < new_s.len() && a != c
                        implies new_s[a].0 != new_s[c].0 by {
                        let oa: int = if a == i as int { old_s.len() - 1 } else { a };
                        let oc: int = if c == i as int { old_s.len() - 1 } else { c };
                        assert(new_s[a] == old_s[oa]);
                        assert(new_s[c] == old_s[oc]);
                    };
                    let expected = to_map(old_s).remove(key@);
                    assert forall|k: Seq<char>| #[trigger] to_map(new_s).dom().contains(k) == expected.dom().contains(k) by {
                        if has_key(new_s, k) {
                            let j = choose|j: int| 0 <= j < new_s.len() && new_s[j].0 == k;
                            let oj: int = if j == i as int { old_s.len() - 1 } else { j };
                            assert(new_s[j] == old_s[oj]);
                            assert(oj != i as int);
                            lemma_to_map_at(old_s, oj);
                        }
                        if k != key@ && has_key(old_s, k) {
                            let oj = choose|oj: int| 0 <= oj < old_s.len() && old_s[oj].0 == k;
                            assert(oj != i as int);
                            let j: int = if oj == old_s.len() - 1 { i as int } else { oj };
                            assert(new_s[j] == old_s[oj]);
                        }
                    };
                    assert forall|k: Seq<char>| to_map(new_s).dom().contains(k) implies #[trigger] to_map(new_s)[k] == expected[k] by {
                        let j = choose|j: int| 0 <= j < new_s.len() && new_s[j].0 == k;
                        lemma_to_map_at(new_s, j);
                        let oj: int = if j == i as int { old_s.len() - 1 } else { j };
                        assert(new_s[j] == old_s[oj]);
                        lemma_to_map_at(old_s, oj);
                    };
                    assert(to_map(new_s) =~= expected);
                }
                b
            }
            None => {
                proof {
                    assert(to_map(old_s).remove(key@) =~= to_map(old_s));
                }
                VecDeque::new()
            }
        }
    }

    /// Stores the history of a key that has none.
    fn put_entry(&mut self, key: String, buf: VecDeque<i64>)
        requires
            old(self).wf(),
            !old(self)@.dom().contains(key@),
        ensures
            final(self).wf(),
            final(self).limit() == old(self).limit(),
            final(self)@ == old(self)@.insert(key@, buf@),
    {
        let ghost old_s = entry_views(self.entries@);
        let ghost k0 = key@;
        let ghost b0 = buf@;
        self.entries.push((key, buf));
        proof {
            let new_s = entry_views(self.entries@);
            assert(new_s =~= old_s.push((k0, b0)));
            assert forall|j: int| 0 <= j < old_s.len() implies old_s[j].0 != k0 by {
                assert(has_key(old_s, old_s[j].0));
            };
            let expected = to_map(old_s).insert(k0, b0);
            assert forall|k: Seq<char>| #[trigger] to_map(new_s).dom().contains(k) == expected.dom().contains(k) by {
                if has_key(new_s, k) {
                    let j = choose|j: int| 0 <= j < new_s.len() && new_s[j].0 == k;
                    if j < old_s.len() {
                        assert(has_key(old_s, k));
                    }
                }
                if has_key(old_s, k) {
                    let j = choose|j: int| 0 <= j < old_s.len() && old_s[j].0 == k;
                    assert(new_s[j] == old_s[j]);
                }
                if k == k0 {
                    assert(new_s[old_s.len() as int].0 == k0);
                }
            };
            assert forall|k: Seq<char>| to_map(new_s).dom().contains(k) implies #[trigger] to_map(new_s)[k] == expected[k] by {
                let j = choose|j: int| 0 <= j < new_s.len() && new_s[j].0 == k;
                lemma_to_map_at(new_s, j);
                if j < old_s.len() {
                    assert(new_s[j] == old_s[j]);
                    lemma_to_map_at(old_s, j);
                }
            };
            assert(to_map(new_s) =~= expected);
        }
    }

    /// Records one access at `ts` under `key`, keeping only the newest
    /// `max_records` timestamps of that key. Does nothing when the limit is 0.
    pub fn record(&mut self, key: &str, ts: i64)
        requires
            old(self).wf(),
        ensures
            final(self).wf(),
            final(self).limit() == old(self).limit(),
            final(self)@ == recorded(old(self)@, old(self).limit(), key@, ts),
    {
        if self.max_records == 0 {
            return;
        }
        let key_string = String::from_str(key);
        let mut buf = self.take_entry(&key_string);
        buf.push_back(ts);
        Self::trim(&mut buf, self.max_records);
        self.put_entry(key_string, buf);
        proof {
            assert(self@ =~= old(self)@.insert(key@, keep_last(history_in(old(self)@, key@).push(ts), self.max_records as nat)));
        }
    }

    /// Replaces the whole history of `key`.
    pub fn set_history(&mut self, key: String, history: Vec<i64>)
        requires
            old(self).wf(),
        ensures
            final(self).wf(),
            final(self).limit() == old(self).limit(),
            final(self)@ == old(self)@.insert(key@, history@),
    {
        let _ = self.take_entry(&key);
        let mut buf: VecDeque<i64> = VecDeque::new();
        let n = history.len();
        let mut i: usize = 0;
        while i < n
            invariant
                n == history@.len(),
                i <= n,
                buf@ == history@.take(i as int),
            decreases n - i,
        {
            buf.push_back(history[i]);
            i = i + 1;
            assert(buf@ =~= history@.take(i as int));
        }
        assert(history@.take(n as int) =~= history@);
        self.put_entry(key, buf);
        proof {
            assert(self@ =~= old(self)@.insert(key@, history@));
        }
    }

    /// A log with the given histories and limit; when a key is given twice
    /// the later history counts. The histories are kept as given, even when
    /// longer than the limit.
    pub fn restore(histories: Vec<(String, Vec<i64>)>, max_records: usize) -> (log: AccessLog)
        ensures
            log.wf(),
            log.limit() == max_records,
            log@ == histories_map(history_views(histories@)),
    {
        let mut log = AccessLog::new(max_records);
        let ghost hv = history_views(histories@);
        for item in it: histories
            invariant
                hv == history_views(it.seq()),
                log.wf(),
                log.limit() == max_records,
                log@ == histories_map(hv.take(it.index())),
        {
            let (k, h) = item;
            proof {
                assert(hv.take(it.index() + 1).drop_last() =~= hv.take(it.index()));
                assert(hv[it.index()] == (k@, h@));
            }
            log.set_history(k, h);
        }
        assert(hv.take(hv.len() as int) =~= hv);
        log
    }

    /// The keys and histories of the log, each key once.
    pub fn histories(&self) -> (out: Vec<(String, Vec<i64>)>)
        requires
            self.wf(),
        ensures
            keys_distinct(history_views(out@)),
            to_map(history_views(out@)) == self@,
    {
        let mut out: Vec<(String, Vec<i64>)> = Vec::new();
        let n = self.entries.len();
        let mut i: usize = 0;
        while i < n
            invariant
                n == self.entries@.len(),
                i <= n,
                history_views(out@) == entry_views(self.entries@).take(i as int),
            decreases n - i,
        {
            let key = self.entries[i].0.clone();
            let buf = &self.entries[i].1;
            let mut h: Vec<i64> = Vec::new();
            let m = buf.len();
            let mut j: usize = 0;
            while j < m
                invariant
                    m == buf@.len(),
                    j <= m,
                    h@ == buf@.take(j as int),
                decreases m - j,
            {
                h.push(buf[j]);
                j = j + 1;
                assert(h@ =~= buf@.take(j as int));
            }
            assert(buf@.take(m as int) =~= buf@);
            let ghost before = out@;
            let ghost kv = (key@, h@);
            assert(kv == entry_views(self.entries@)[i as int]);
            out.push((key, h));
            assert(history_views(out@) =~= history_views(before).push(kv));
            assert(entry_views(self.entries@).take(i + 1) =~= entry_views(self.entries@).take(i as int).push(kv));
            i = i + 1;
            assert(history_views(out@) =~= entry_views(self.entries@).take(i as int));
        }
        assert(entry_views(self.entries@).take(n as int) =~= entry_views(self.entries@));
        out
    }

    /// The recorded timestamps of `key`, oldest first; empty for an unknown key.
    pub fn get(&self, key: &str) -> (ts: Vec<i64>)
        requires
            self.wf(),
        ensures
            ts@ == history_in(self@, key@),
    {
        let key_string = String::from_str(key);
        match self.find(&key_string) {
            Some(i) => {
                proof { lemma_to_map_at(entry_views(self.entries@), i as int); }
                let buf = &self.entries[i].1;
                let mut out: Vec<i64> = Vec::new();
                let n = buf.len();
                let mut j: usize = 0;
                while j < n
                    invariant
                        n == buf@.len(),
                        j <= n,
                        out@ == buf@.subrange(0, j as int),
                    decreases n - j,
                {
                    out.push(buf[j]);
                    j = j + 1;
                    assert(out@ =~= buf@.subrange(0, j as int));
                }
                assert(out@ =~= buf@);
                out
            }
            None => Vec::new(),
        }
    }
}

} // verus!
