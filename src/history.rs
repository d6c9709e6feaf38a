//! Browsing history: the most recent visit first, one entry per URL.

use vstd::prelude::*;
use crate::text::{contains_seq, contains_str, lower_of, lowercase, str_eq};

verus! {

/// At most this many entries are kept.
pub const MAX_HISTORY_ENTRIES: usize = 10000;

/// A visited URL; `visited_at` is in seconds since the Unix epoch.
#[derive(Debug, Clone)]
pub struct HistoryEntry {
    pub url: String,
    pub title: String,
    pub visited_at: i64,
    pub visit_count: u32,
}

/// The entries of `s` whose URL or title contains `q`, ignoring case.
pub open spec fn matching(s: Seq<HistoryEntry>, q: Seq<char>) -> Seq<HistoryEntry>
    decreases s.len(),
{
    if s.len() == 0 {
        Seq::empty()
    } else {
        let e = s.last();
        matching(s.drop_last(), q) + if contains_seq(lower_of(e.url@), q) || contains_seq(
            lower_of(e.title@),
            q,
        ) {
            seq![e]
        } else {
            Seq::empty()
        }
    }
}

/// The entries of `s` for another URL than `url`.
pub open spec fn without_url(s: Seq<HistoryEntry>, url: Seq<char>) -> Seq<HistoryEntry>
    decreases s.len(),
{
    if s.len() == 0 {
        Seq::empty()
    } else if s.last().url@ == url {
        without_url(s.drop_last(), url)
    } else {
        without_url(s.drop_last(), url).push(s.last())
    }
}

/// The entries, most recent first.
pub struct HistoryStore {
    pub entries: Vec<HistoryEntry>,
}

impl HistoryStore {
    pub fn new() -> (r: Self)
        ensures
            r.entries@.len() == 0,
    {
        HistoryStore { entries: Vec::new() }
    }

    /// Records a visit at `now`: a known URL gets the new title and time and
    /// one more visit (the count stops at its largest value); a new URL goes
    /// first, and the oldest entries beyond the limit are dropped.
    pub fn add_entry(&mut self, url: &str, title: &str, now: i64)
        ensures
            ({
                let old_entries = old(self).entries@;
                let new_entries = final(self).entries@;
                if exists|i: int| 0 <= i < old_entries.len() && (#[trigger] old_entries[i]).url@ == url@ {
                    exists|i: int|
                        0 <= i < old_entries.len() && (#[trigger] old_entries[i]).url@ == url@
                            && (forall|j: int| 0 <= j < i ==> (#[trigger] old_entries[j]).url@ != url@)
                            && new_entries.len() == old_entries.len()
                            && (forall|j: int| 0 <= j < old_entries.len() && j != i ==> #[trigger] new_entries[j] == old_entries[j])
                            && new_entries[i].url == old_entries[i].url
                            && new_entries[i].title@ == title@
                            && new_entries[i].visited_at == now
                            && new_entries[i].visit_count == if old_entries[i].visit_count < u32::MAX {
                                (old_entries[i].visit_count + 1) as u32
                            } else {
                                old_entries[i].visit_count
                            }
                } else {
                    &&& new_entries.len() == if old_entries.len() + 1 > MAX_HISTORY_ENTRIES {
                        MAX_HISTORY_ENTRIES as int
                    } else {
                        (old_entries.len() + 1) as int
                    }
                    &&& new_entries[0].url@ == url@
                    &&& new_entries[0].title@ == title@
                    &&& new_entries[0].visited_at == now
                    &&& new_entries[0].visit_count == 1
                    &&& forall|j: int| 1 <= j < new_entries.len() ==> #[trigger] new_entries[j] == old_entries[j - 1]
                }
            }),
    {
        let mut i: usize = 0;
        while i < self.entries.len()
            invariant
                self.entries@ == old(self).entries@,
                i <= self.entries@.len(),
                forall|j: int| 0 <= j < i ==> (#[trigger] self.entries@[j]).url@ != url@,
            decreases self.entries@.len() - i,
        {
            if str_eq(self.entries[i].url.as_str(), url) {
                let mut e = self.entries.remove(i);
                if e.visit_count < u32::MAX {
                    e.visit_count = e.visit_count + 1;
                }
                e.visited_at = now;
                e.title = title.to_owned();
                self.entries.insert(i, e);
                assert(old(self).entries@[i as int].url@ == url@);
                return;
            }
            i = i + 1;
        }
        let entry = HistoryEntry {
            url: url.to_owned(),
            title: title.to_owned(),
            visited_at: now,
            visit_count: 1,
        };
        self.entries.insert(0, entry);
        if self.entries.len() > MAX_HISTORY_ENTRIES {
            self.entries.truncate(MAX_HISTORY_ENTRIES);
        }
    }

    /// The `limit` most recent entries.
    pub fn get_recent(&self, limit: usize) -> (r: Vec<&HistoryEntry>)
        ensures
            r@.len() == if limit < self.entries@.len() { limit as int } else { self.entries@.len() as int },
            forall|j: int| 0 <= j < r@.len() ==> *r@[j] == self.entries@[j],
    {
        let mut r: Vec<&HistoryEntry> = Vec::new();
        let mut i: usize = 0;
        while i < self.entries.len() && i < limit
            invariant
                i <= self.entries@.len(),
                i <= limit,
                r@.len() == i,
                forall|j: int| 0 <= j < i ==> *r@[j] == self.entries@[j],
            decreases self.entries@.len() - i,
        {
            r.push(&self.entries[i]);
            i = i + 1;
        }
        r
    }

    /// The entries whose URL or title contains the query, ignoring case.
    pub fn search(&self, query: &str) -> (r: Vec<&HistoryEntry>)
        ensures
            r@.map_values(|e: &HistoryEntry| *e) == matching(self.entries@, lower_of(query@)),
    {
        let q = lowercase(query);
        let mut r: Vec<&HistoryEntry> = Vec::new();
        let mut i: usize = 0;
        while i < self.entries.len()
            invariant
                q@ == lower_of(query@),
                i <= self.entries@.len(),
                r@.map_values(|e: &HistoryEntry| *e) == matching(self.entries@.subrange(0, i as int), q@),
            decreases self.entries@.len() - i,
        {
            let e = &self.entries[i];
            assert(self.entries@.subrange(0, i + 1).drop_last() =~= self.entries@.subrange(0, i as int));
            let ghost before = r@;
            let url_lower = lowercase(e.url.as_str());
            let title_lower = lowercase(e.title.as_str());
            if contains_str(url_lower.as_str(), q.as_str()) || contains_str(title_lower.as_str(), q.as_str()) {
                r.push(e);
                assert(r@.map_values(|x: &HistoryEntry| *x) =~= before.map_values(|x: &HistoryEntry| *x).push(*e));
            }
            assert(r@.map_values(|x: &HistoryEntry| *x) =~= matching(self.entries@.subrange(0, i + 1), q@));
            i = i + 1;
        }
        assert(self.entries@.subrange(0, i as int) =~= self.entries@);
        r
    }

    /// Forgets every visit of `url`.
    pub fn remove_entry(&mut self, url: &str)
        ensures
            final(self).entries@ == without_url(old(self).entries@, url@),
    {
        let mut rest: Vec<HistoryEntry> = Vec::new();
        std::mem::swap(&mut self.entries, &mut rest);
        let ghost s = rest@;
        let mut kept: Vec<HistoryEntry> = Vec::new();
        let ghost mut k: int = 0;
        while rest.len() > 0
            invariant
                0 <= k <= s.len(),
                rest@ == s.subrange(k, s.len() as int),
                kept@ == without_url(s.subrange(0, k), url@),
            decreases rest@.len(),
        {
            let e = rest.remove(0);
            proof {
                assert(s.subrange(0, k + 1).drop_last() =~= s.subrange(0, k));
                assert(s.subrange(0, k + 1).last() == e);
            }
            if !str_eq(e.url.as_str(), url) {
                kept.push(e);
            }
            proof {
                k = k + 1;
                assert(rest@ =~= s.subrange(k, s.len() as int));
            }
        }
        assert(s.subrange(0, k) =~= s);
        self.entries = kept;
    }

    pub fn clear(&mut self)
        ensures
            final(self).entries@.len() == 0,
    {
        self.entries.clear();
    }
}

} // verus!
