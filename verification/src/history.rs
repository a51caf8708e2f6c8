//! When each launched item was last used: a map from an item's id to a
//! time in seconds since the Unix epoch.
use vstd::prelude::*;

use crate::text::str_equal;

verus! {

#[verifier::external_type_specification]
#[verifier::external_body]
pub struct ExSystemTime(std::time::SystemTime);

/// Calls `SystemTime::now`. Nothing is claimed of the time it reads.
#[verifier::external_body]
fn system_now() -> (t: std::time::SystemTime) {
    std::time::SystemTime::now()
}

/// Calls `SystemTime::duration_since(UNIX_EPOCH)`, keeping the duration
/// when the time is not before the epoch. Nothing is claimed of the
/// duration itself.
#[verifier::external_body]
fn duration_since_epoch(t: &std::time::SystemTime) -> (d: Option<core::time::Duration>) {
    t.duration_since(std::time::UNIX_EPOCH).ok()
}

/// Calls `Duration::as_secs`. Nothing is claimed of the number.
#[verifier::external_body]
fn duration_secs(d: &core::time::Duration) -> (s: u64) {
    d.as_secs()
}

/// Whether `k` is the key of some entry.
pub open spec fn has_key(entries: Seq<(String, u64)>, k: Seq<char>) -> bool {
    exists|i: int| 0 <= i < entries.len() && (#[trigger] entries[i]).0@ == k
}

/// No key occurs twice.
pub open spec fn keys_unique(entries: Seq<(String, u64)>) -> bool {
    forall|i: int, j: int|
        0 <= i < entries.len() && 0 <= j < entries.len() && (#[trigger] entries[i]).0@ == (
        #[trigger] entries[j]).0@ ==> i == j
}

/// The map that a list of entries with unique keys stands for.
pub open spec fn entries_map(entries: Seq<(String, u64)>) -> Map<Seq<char>, u64> {
    Map::new(
        |k: Seq<char>| has_key(entries, k),
        |k: Seq<char>|
            entries[choose|i: int| 0 <= i < entries.len() && (#[trigger] entries[i]).0@ == k].1,
    )
}

/// The launch history.
pub struct History {
    entries: Vec<(String, u64)>,
}

impl View for History {
    type V = Map<Seq<char>, u64>;

    closed spec fn view(&self) -> Map<Seq<char>, u64> {
        entries_map(self.entries@)
    }
}

proof fn lemma_map_at(entries: Seq<(String, u64)>, i: int)
    requires
        keys_unique(entries),
        0 <= i < entries.len(),
    ensures
        entries_map(entries).contains_key(entries[i].0@),
        entries_map(entries)[entries[i].0@] == entries[i].1,
{
    let k = entries[i].0@;
    assert(has_key(entries, k));
    let j = choose|j: int| 0 <= j < entries.len() && (#[trigger] entries[j]).0@ == k;
    assert(entries[j].0@ == k);
}

impl History {
    #[verifier::type_invariant]
    spec fn well_formed(&self) -> bool {
        keys_unique(self.entries@)
    }

    /// The entries, in the order in which their keys were first recorded.
    pub closed spec fn entry_seq(&self) -> Seq<(String, u64)> {
        self.entries@
    }

    /// A history with no entries.
    pub fn empty() -> (h: History)
        ensures
            h@ == Map::<Seq<char>, u64>::empty(),
    {
        let h = History { entries: Vec::new() };
        assert(h@ =~= Map::<Seq<char>, u64>::empty());
        h
    }

    /// The position of the entry whose key is `id`.
    fn find(&self, id: &str) -> (r: Option<usize>)
        ensures
            match r {
                Some(i) => i < self.entries@.len() && self.entries@[i as int].0@ == id@,
                None => !has_key(self.entries@, id@),
            },
    {
        let mut i: usize = 0;
        while i < self.entries.len()
            invariant
                i <= self.entries@.len(),
                forall|k: int| 0 <= k < i ==> (#[trigger] self.entries@[k]).0@ != id@,
            decreases self.entries@.len() - i,
        {
            if str_equal(self.entries[i].0.as_str(), id) {
                return Some(i);
            }
            i += 1;
        }
        None
    }

    /// Records that `id` was used at `secs` seconds since the epoch,
    /// replacing any time recorded for it before.
    pub fn record(&mut self, id: String, secs: u64)
        ensures
            final(self)@ == old(self)@.insert(id@, secs),
    {
        proof {
            use_type_invariant(&*self);
        }
        let ghost old_entries = self.entries@;
        match self.find(id.as_str()) {
            Some(i) => {
                let key = self.entries[i].0.clone();
                let mut entries: Vec<(String, u64)> = Vec::new();
                std::mem::swap(&mut entries, &mut self.entries);
                entries.set(i, (key, secs));
                proof {
                    let new_entries = entries@;
                    assert forall|a: int, b: int|
                        0 <= a < new_entries.len() && 0 <= b < new_entries.len() && (
                        #[trigger] new_entries[a]).0@ == (#[trigger] new_entries[b]).0@ implies a
                        == b by {
                        assert(new_entries[a].0@ == old_entries[a].0@);
                        assert(new_entries[b].0@ == old_entries[b].0@);
                    }
                    assert forall|k: Seq<char>|
                        has_key(new_entries, k) == (has_key(old_entries, k) || k == id@) by {
                        if has_key(old_entries, k) {
                            let j = choose|j: int|
                                0 <= j < old_entries.len() && (#[trigger] old_entries[j]).0@ == k;
                            assert(new_entries[j].0@ == k);
                        }
                        if has_key(new_entries, k) {
                            let j = choose|j: int|
                                0 <= j < new_entries.len() && (#[trigger] new_entries[j]).0@ == k;
                            assert(old_entries[j].0@ == k);
                        }
                        if k == id@ {
                            assert(new_entries[i as int].0@ == k);
                        }
                    }
                    assert forall|k: Seq<char>| #[trigger]
                        entries_map(new_entries).contains_key(k) implies entries_map(
                        new_entries,
                    )[k] == (if k == id@ {
                        secs
                    } else {
                        entries_map(old_entries)[k]
                    }) by {
                        let j = choose|j: int|
                            0 <= j < new_entries.len() && (#[trigger] new_entries[j]).0@ == k;
                        lemma_map_at(new_entries, j);
                        if k != id@ {
                            lemma_map_at(old_entries, j);
                        }
                    }
                    assert(entries_map(new_entries) =~= entries_map(old_entries).insert(id@, secs));
                }
                self.entries = entries;
            },
            None => {
                let mut entries: Vec<(String, u64)> = Vec::new();
                std::mem::swap(&mut entries, &mut self.entries);
                entries.push((id, secs));
                proof {
                    let new_entries = entries@;
                    let n = old_entries.len() as int;
                    assert(new_entries == old_entries.push(new_entries[n]));
                    assert forall|a: int, b: int|
                        0 <= a < new_entries.len() && 0 <= b < new_entries.len() && (
                        #[trigger] new_entries[a]).0@ == (#[trigger] new_entries[b]).0@ implies a
                        == b by {
                        if a < n && b == n {
                            assert(old_entries[a].0@ == id@);
                        }
                        if b < n && a == n {
                            assert(old_entries[b].0@ == id@);
                        }
                        if a < n && b < n {
                            assert(new_entries[a] == old_entries[a]);
                            assert(new_entries[b] == old_entries[b]);
                        }
                    }
                    lemma_entries_map_push(old_entries, new_entries[n]);
                }
                self.entries = entries;
            },
        }
    }

    /// Records that `id` was used now, in whole seconds since the Unix
    /// epoch, replacing any time recorded for it before. When the clock reads
    /// a time before the epoch nothing is recorded and an error is returned.
    pub fn update(&mut self, id: String) -> (r: Result<(), ()>)
        ensures
            r is Ok ==> exists|t: u64| final(self)@ == old(self)@.insert(id@, t),
            r is Err ==> final(self)@ == old(self)@,
    {
        let now = system_now();
        match duration_since_epoch(&now) {
            Some(d) => {
                let secs = duration_secs(&d);
                let ghost key = id@;
                self.record(id, secs);
                assert(self@ == old(self)@.insert(key, secs));
                Ok(())
            },
            None => Err(()),
        }
    }

    /// The time recorded for `id`, if any.
    pub fn get(&self, id: &str) -> (r: Option<u64>)
        ensures
            r == (if self@.contains_key(id@) {
                Some(self@[id@])
            } else {
                None
            }),
    {
        proof {
            use_type_invariant(self);
        }
        match self.find(id) {
            Some(i) => {
                proof {
                    lemma_map_at(self.entries@, i as int);
                }
                Some(self.entries[i].1)
            },
            None => None,
        }
    }

    /// The recorded entries, each key once.
    pub fn entries(&self) -> (v: Vec<(String, u64)>)
        ensures
            v@ == self.entry_seq(),
            keys_unique(v@),
            entries_map(v@) == self@,
    {
        proof {
            use_type_invariant(self);
        }
        let mut v: Vec<(String, u64)> = Vec::new();
        let mut i: usize = 0;
        while i < self.entries.len()
            invariant
                i <= self.entries@.len(),
                v@ == self.entries@.take(i as int),
            decreases self.entries@.len() - i,
        {
            let k = self.entries[i].0.clone();
            v.push((k, self.entries[i].1));
            proof {
                assert(self.entries@.take(i + 1) =~= self.entries@.take(i as int).push(
                    self.entries@[i as int],
                ));
            }
            i += 1;
        }
        assert(self.entries@.take(self.entries@.len() as int) =~= self.entries@);
        v
    }

    /// The history of the given entries, recorded in order: where a key
    /// occurs more than once, the later entry wins.
    pub fn from_entries(entries: Vec<(String, u64)>) -> (h: History)
        ensures
            h@ == recorded_all(entries@),
    {
        let mut h = History::empty();
        let mut i: usize = 0;
        while i < entries.len()
            invariant
                i <= entries@.len(),
                h@ == recorded_all(entries@.take(i as int)),
            decreases entries@.len() - i,
        {
            let k = entries[i].0.clone();
            let t = entries[i].1;
            h.record(k, t);
            proof {
                assert(entries@.take(i + 1).drop_last() =~= entries@.take(i as int));
            }
            i += 1;
        }
        assert(entries@.take(entries@.len() as int) =~= entries@);
        h
    }
}

/// The map made by recording the entries one after another into an empty
/// history.
pub open spec fn recorded_all(entries: Seq<(String, u64)>) -> Map<Seq<char>, u64>
    decreases entries.len(),
{
    if entries.len() == 0 {
        Map::empty()
    } else {
        recorded_all(entries.drop_last()).insert(entries.last().0@, entries.last().1)
    }
}

proof fn lemma_entries_map_push(s: Seq<(String, u64)>, e: (String, u64))
    requires
        keys_unique(s.push(e)),
    ensures
        keys_unique(s),
        entries_map(s.push(e)) == entries_map(s).insert(e.0@, e.1),
{
    let t = s.push(e);
    let n = s.len() as int;
    assert forall|a: int, b: int|
        0 <= a < s.len() && 0 <= b < s.len() && (#[trigger] s[a]).0@ == (#[trigger] s[b]).0@ implies a
        == b by {
        assert(t[a] == s[a]);
        assert(t[b] == s[b]);
    }
    assert forall|k: Seq<char>| has_key(t, k) == (has_key(s, k) || k == e.0@) by {
        if has_key(s, k) {
            let j = choose|j: int| 0 <= j < s.len() && (#[trigger] s[j]).0@ == k;
            assert(t[j] == s[j]);
        }
        if has_key(t, k) {
            let j = choose|j: int| 0 <= j < t.len() && (#[trigger] t[j]).0@ == k;
            if j < n {
                assert(t[j] == s[j]);
            }
        }
        if k == e.0@ {
            assert(t[n].0@ == k);
        }
    }
    assert forall|k: Seq<char>| #[trigger]
        entries_map(t).contains_key(k) implies entries_map(t)[k] == (if k == e.0@ {
        e.1
    } else {
        entries_map(s)[k]
    }) by {
        let j = choose|j: int| 0 <= j < t.len() && (#[trigger] t[j]).0@ == k;
        lemma_map_at(t, j);
        if k == e.0@ {
            assert(t[n].0@ == k);
            assert(j == n);
        }
        if k != e.0@ {
            assert(t[j] == s[j]);
            lemma_map_at(s, j);
        }
    }
    assert(entries_map(t) =~= entries_map(s).insert(e.0@, e.1));
}

/// Entries with distinct keys, recorded one after another into an empty
/// history, give back the history they were taken from: saving the entries
/// of a history and loading them again loses and changes nothing.
pub proof fn lemma_entries_round_trip(entries: Seq<(String, u64)>)
    requires
        keys_unique(entries),
    ensures
        recorded_all(entries) == entries_map(entries),
    decreases entries.len(),
{
    if entries.len() == 0 {
        assert(entries_map(entries) =~= Map::<Seq<char>, u64>::empty());
    } else {
        let init = entries.drop_last();
        assert(init.push(entries.last()) =~= entries);
        lemma_entries_map_push(init, entries.last());
        lemma_entries_round_trip(init);
    }
}

/// What is read back for an id right after recording it is the time just
/// recorded; the times of the other ids are unchanged.
pub proof fn lemma_record_then_read(before: Map<Seq<char>, u64>, id: Seq<char>, secs: u64, other: Seq<char>)
    requires
        other != id,
    ensures
        before.insert(id, secs).contains_key(id),
        before.insert(id, secs)[id] == secs,
        before.insert(id, secs).contains_key(other) == before.contains_key(other),
        before.contains_key(other) ==> before.insert(id, secs)[other] == before[other],
{
}

} // verus!
