//! Usage counters by language and by intent. A counter only grows: it is
//! created at one on its first increment and stays at the largest value of
//! its type once it has reached it.

use vstd::prelude::*;
use vstd::string::*;

verus! {

/// Counters as a map from key to count.
pub type CountsView = Map<Seq<char>, u64>;

/// The count after one more use; the largest count stays as it is.
pub open spec fn next_count(n: u64) -> u64 {
    if n < u64::MAX {
        (n + 1) as u64
    } else {
        n
    }
}

/// The counters after one more use of `key`.
pub open spec fn bumped(m: CountsView, key: Seq<char>) -> CountsView {
    if m.dom().contains(key) {
        m.insert(key, next_count(m[key]))
    } else {
        m.insert(key, 1)
    }
}

/// The count that the counters hold for `key`: zero where it was never
/// used.
pub open spec fn count_of(m: CountsView, key: Seq<char>) -> u64 {
    if m.dom().contains(key) {
        m[key]
    } else {
        0
    }
}

/// No counter ever goes down, and none but the one of `key` changes.
pub proof fn lemma_counts_only_grow(m: CountsView, key: Seq<char>, other: Seq<char>)
    ensures
        count_of(bumped(m, key), other) >= count_of(m, other),
        other != key ==> count_of(bumped(m, key), other) == count_of(m, other),
        count_of(m, key) < u64::MAX ==> count_of(bumped(m, key), key) == count_of(m, key) + 1,
        bumped(m, key).dom() == m.dom().insert(key),
{
    assert(bumped(m, key).dom() =~= m.dom().insert(key));
}

/// No two entries of the list share a key.
pub open spec fn distinct_keys(s: Seq<(String, u64)>) -> bool {
    forall|i: int, j: int| 0 <= i < s.len() && 0 <= j < s.len() && i != j ==> s[i].0@ != s[j].0@
}

/// The map that a list of counters with distinct keys stands for.
pub open spec fn counts_map(s: Seq<(String, u64)>) -> CountsView {
    Map::new(
        |key: Seq<char>| exists|i: int| 0 <= i < s.len() && s[i].0@ == key,
        |key: Seq<char>| s[choose|i: int| 0 <= i < s.len() && s[i].0@ == key].1,
    )
}

/// The map holds each count of the list under its key.
proof fn lemma_count_at(s: Seq<(String, u64)>, i: int)
    requires
        distinct_keys(s),
        0 <= i < s.len(),
    ensures
        counts_map(s).dom().contains(s[i].0@),
        counts_map(s)[s[i].0@] == s[i].1,
{
}

/// A counter with a new key at the end of the list is an insertion into
/// the map.
proof fn lemma_count_added(s: Seq<(String, u64)>, x: (String, u64))
    requires
        distinct_keys(s),
        forall|i: int| 0 <= i < s.len() ==> s[i].0@ != x.0@,
    ensures
        distinct_keys(s.push(x)),
        counts_map(s.push(x)) == counts_map(s).insert(x.0@, x.1),
{
    let t = s.push(x);
    assert forall|key: Seq<char>| #[trigger]
        counts_map(t).dom().contains(key) == counts_map(s).insert(x.0@, x.1).dom().contains(
            key,
        ) by {
        if counts_map(t).dom().contains(key) {
            let i = choose|i: int| 0 <= i < t.len() && t[i].0@ == key;
            if i < s.len() {
                assert(s[i].0@ == key);
            }
        }
        if counts_map(s).dom().contains(key) {
            let i = choose|i: int| 0 <= i < s.len() && s[i].0@ == key;
            assert(t[i].0@ == key);
        }
        if key == x.0@ {
            assert(t[s.len() as int].0@ == key);
        }
    }
    assert forall|key: Seq<char>| #[trigger] counts_map(t).dom().contains(key) implies counts_map(
        t,
    )[key] == counts_map(s).insert(x.0@, x.1)[key] by {
        let i = choose|i: int| 0 <= i < t.len() && t[i].0@ == key;
        lemma_count_at(t, i);
        if i < s.len() {
            assert(s[i].0@ == key);
            lemma_count_at(s, i);
        }
    }
    assert(counts_map(t) =~= counts_map(s).insert(x.0@, x.1));
}

/// A counter put in the place of one with the same key is an insertion
/// into the map.
proof fn lemma_count_changed(s: Seq<(String, u64)>, k: int, x: (String, u64))
    requires
        distinct_keys(s),
        0 <= k < s.len(),
        x.0@ == s[k].0@,
    ensures
        distinct_keys(s.update(k, x)),
        counts_map(s.update(k, x)) == counts_map(s).insert(x.0@, x.1),
{
    let t = s.update(k, x);
    assert(distinct_keys(t)) by {
        assert forall|i: int, j: int|
            0 <= i < t.len() && 0 <= j < t.len() && i != j implies t[i].0@ != t[j].0@ by {
            assert(t[i].0@ == s[i].0@);
            assert(t[j].0@ == s[j].0@);
        }
    }
    assert forall|key: Seq<char>| #[trigger]
        counts_map(t).dom().contains(key) == counts_map(s).insert(x.0@, x.1).dom().contains(
            key,
        ) by {
        if counts_map(t).dom().contains(key) {
            let i = choose|i: int| 0 <= i < t.len() && t[i].0@ == key;
            assert(s[i].0@ == key);
        }
        if counts_map(s).dom().contains(key) {
            let i = choose|i: int| 0 <= i < s.len() && s[i].0@ == key;
            assert(t[i].0@ == key);
        }
        if key == x.0@ {
            assert(t[k].0@ == key);
        }
    }
    assert forall|key: Seq<char>| #[trigger] counts_map(t).dom().contains(key) implies counts_map(
        t,
    )[key] == counts_map(s).insert(x.0@, x.1)[key] by {
        let i = choose|i: int| 0 <= i < t.len() && t[i].0@ == key;
        lemma_count_at(t, i);
        assert(s[i].0@ == key);
        lemma_count_at(s, i);
    }
    assert(counts_map(t) =~= counts_map(s).insert(x.0@, x.1));
}

/// A set of counters, one for each key that was used.
#[derive(Debug)]
pub struct UsageCounts {
    entries: Vec<(String, u64)>,
}

impl View for UsageCounts {
    type V = CountsView;

    closed spec fn view(&self) -> CountsView {
        counts_map(self.entries@)
    }
}

impl UsageCounts {
    #[verifier::type_invariant]
    spec fn well_formed(&self) -> bool {
        distinct_keys(self.entries@)
    }

    /// No counters.
    pub fn new() -> (c: UsageCounts)
        ensures
            c@ == CountsView::empty(),
    {
        let c = UsageCounts { entries: Vec::new() };
        assert(c@ =~= CountsView::empty());
        c
    }

    /// Where the counter of `key` stands in the list, if there is one.
    fn find(&self, key: &str) -> (r: Option<usize>)
        ensures
            match r {
                Some(i) => i < self.entries.len() && self.entries[i as int].0@ == key@,
                None => forall|i: int| 0 <= i < self.entries.len() ==> self.entries[i].0@ != key@,
            },
            r is Some <==> self@.dom().contains(key@),
            r matches Some(i) ==> self@[key@] == self.entries[i as int].1,
    {
        proof {
            use_type_invariant(self);
        }
        let wanted = String::from_str(key);
        let mut i: usize = 0;
        while i < self.entries.len()
            invariant
                i <= self.entries.len(),
                wanted@ == key@,
                distinct_keys(self.entries@),
                forall|k: int| 0 <= k < i ==> self.entries[k].0@ != key@,
            decreases self.entries.len() - i,
        {
            if self.entries[i].0 == wanted {
                proof {
                    lemma_count_at(self.entries@, i as int);
                }
                return Some(i);
            }
            i += 1;
        }
        None
    }

    /// The counter of `key`, if it was ever used.
    pub fn get(&self, key: &str) -> (r: Option<u64>)
        ensures
            r == if self@.dom().contains(key@) {
                Some(self@[key@])
            } else {
                None
            },
    {
        match self.find(key) {
            Some(i) => Some(self.entries[i].1),
            None => None,
        }
    }

    /// How often `key` was used.
    pub fn count(&self, key: &str) -> (n: u64)
        ensures
            n == count_of(self@, key@),
    {
        match self.find(key) {
            Some(i) => self.entries[i].1,
            None => 0,
        }
    }

    /// Counts one more use of `key`.
    pub fn increment(&mut self, key: &str)
        ensures
            final(self)@ == bumped(old(self)@, key@),
    {
        proof {
            use_type_invariant(&*self);
        }
        let found = self.find(key);
        let mut entries: Vec<(String, u64)> = Vec::new();
        core::mem::swap(&mut self.entries, &mut entries);
        let ghost before = entries@;
        match found {
            Some(i) => {
                if entries[i].1 < u64::MAX {
                    entries[i].1 = entries[i].1 + 1;
                }
                proof {
                    assert(entries@ =~= before.update(i as int, entries[i as int]));
                    lemma_count_at(before, i as int);
                    lemma_count_changed(before, i as int, entries[i as int]);
                }
            },
            None => {
                let entry = (String::from_str(key), 1u64);
                proof {
                    lemma_count_added(before, entry);
                }
                entries.push(entry);
            },
        }
        self.entries = entries;
    }

    /// The keys with their counts: each key once.
    pub fn entries(&self) -> (r: Vec<(String, u64)>)
        ensures
            distinct_keys(r@),
            counts_map(r@) == self@,
    {
        proof {
            use_type_invariant(self);
        }
        let mut r: Vec<(String, u64)> = Vec::new();
        let mut i: usize = 0;
        while i < self.entries.len()
            invariant
                i <= self.entries.len(),
                r.len() == i,
                forall|k: int|
                    0 <= k < i ==> r[k].0@ == self.entries[k].0@ && r[k].1 == self.entries[k].1,
            decreases self.entries.len() - i,
        {
            r.push((self.entries[i].0.clone(), self.entries[i].1));
            i += 1;
        }
        proof {
            let s = self.entries@;
            assert(distinct_keys(r@)) by {
                assert forall|a: int, b: int|
                    0 <= a < r.len() && 0 <= b < r.len() && a != b implies r[a].0@ != r[b].0@ by {
                    assert(r[a].0@ == s[a].0@ && r[b].0@ == s[b].0@);
                }
            }
            assert forall|key: Seq<char>| #[trigger]
                counts_map(r@).dom().contains(key) == counts_map(s).dom().contains(key) by {
                if counts_map(r@).dom().contains(key) {
                    let k = choose|k: int| 0 <= k < r.len() && r[k].0@ == key;
                    assert(s[k].0@ == key);
                }
                if counts_map(s).dom().contains(key) {
                    let k = choose|k: int| 0 <= k < s.len() && s[k].0@ == key;
                    assert(r[k].0@ == key);
                }
            }
            assert forall|key: Seq<char>| #[trigger]
                counts_map(r@).dom().contains(key) implies counts_map(r@)[key] == counts_map(
                s,
            )[key] by {
                let k = choose|k: int| 0 <= k < r.len() && r[k].0@ == key;
                lemma_count_at(r@, k);
                assert(s[k].0@ == key);
                lemma_count_at(s, k);
            }
            assert(counts_map(r@) =~= counts_map(s));
        }
        r
    }
}

impl Clone for UsageCounts {
    fn clone(&self) -> (c: UsageCounts)
        ensures
            c@ == self@,
    {
        UsageCounts { entries: self.entries() }
    }
}

impl Default for UsageCounts {
    fn default() -> (c: UsageCounts)
        ensures
            c@ == CountsView::empty(),
    {
        UsageCounts::new()
    }
}

/// The counters at one point in time.
#[derive(Debug)]
pub struct MetricsData {
    /// Turns by the language they were answered in.
    pub language_usage: UsageCounts,
    /// Classified messages by the name of their intent.
    pub intent_usage: UsageCounts,
}

/// The mathematical content of a [`MetricsData`].
pub struct MetricsView {
    pub language_usage: CountsView,
    pub intent_usage: CountsView,
}

impl MetricsView {
    /// Nothing counted yet.
    pub open spec fn empty() -> MetricsView {
        MetricsView { language_usage: CountsView::empty(), intent_usage: CountsView::empty() }
    }

    /// One more turn in `language`.
    pub open spec fn with_language(self, language: Seq<char>) -> MetricsView {
        MetricsView { language_usage: bumped(self.language_usage, language), ..self }
    }

    /// One more message of the intent called `intent`.
    pub open spec fn with_intent(self, intent: Seq<char>) -> MetricsView {
        MetricsView { intent_usage: bumped(self.intent_usage, intent), ..self }
    }
}

impl View for MetricsData {
    type V = MetricsView;

    open spec fn view(&self) -> MetricsView {
        MetricsView { language_usage: self.language_usage@, intent_usage: self.intent_usage@ }
    }
}

impl Default for MetricsData {
    fn default() -> (d: MetricsData)
        ensures
            d@ == MetricsView::empty(),
    {
        MetricsData { language_usage: UsageCounts::new(), intent_usage: UsageCounts::new() }
    }
}

impl Clone for MetricsData {
    fn clone(&self) -> (d: MetricsData)
        ensures
            d@ == self@,
    {
        MetricsData {
            language_usage: self.language_usage.clone(),
            intent_usage: self.intent_usage.clone(),
        }
    }
}

/// The counters of the running process.
#[derive(Debug)]
pub struct MetricsManager {
    inner: MetricsData,
}

impl View for MetricsManager {
    type V = MetricsView;

    closed spec fn view(&self) -> MetricsView {
        self.inner@
    }
}

impl MetricsManager {
    /// Counters with nothing counted yet.
    pub fn new() -> (m: MetricsManager)
        ensures
            m@ == MetricsView::empty(),
    {
        MetricsManager { inner: MetricsData::default() }
    }

    /// Counts one more turn in the language `lang`.
    pub fn increment_language(&mut self, lang: &str)
        ensures
            final(self)@ == old(self)@.with_language(lang@),
    {
        self.inner.language_usage.increment(lang);
    }

    /// Counts one more message of the intent called `intent`.
    pub fn increment_intent(&mut self, intent: &str)
        ensures
            final(self)@ == old(self)@.with_intent(intent@),
    {
        self.inner.intent_usage.increment(intent);
    }

    /// A copy of the counters as they stand.
    pub fn get_metrics(&self) -> (d: MetricsData)
        ensures
            d@ == self@,
    {
        self.inner.clone()
    }
}

impl Default for MetricsManager {
    fn default() -> (m: MetricsManager)
        ensures
            m@ == MetricsView::empty(),
    {
        MetricsManager::new()
    }
}

} // verus!
