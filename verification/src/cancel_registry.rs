//! Registry of the cancellation handles of the documents being parsed,
//! keyed by task id.

use vstd::prelude::*;
use crate::text::str_eq;

verus! {

/// The map that a list of entries with distinct keys stands for.
pub open spec fn entries_map<T>(s: Seq<(String, T)>) -> Map<Seq<char>, T>
    decreases s.len(),
{
    if s.len() == 0 {
        Map::empty()
    } else {
        entries_map(s.drop_last()).insert(s.last().0@, s.last().1)
    }
}

/// No key occurs twice.
pub open spec fn distinct_keys<T>(s: Seq<(String, T)>) -> bool {
    forall|i: int, j: int| 0 <= i < s.len() && 0 <= j < s.len() && i != j ==> #[trigger] s[i].0@
        != #[trigger] s[j].0@
}

/// The keys of the map are those of the entries, and each maps to its
/// entry's value.
pub proof fn lemma_entries_map_dom<T>(s: Seq<(String, T)>)
    requires
        distinct_keys(s),
    ensures
        forall|k: Seq<char>| #[trigger]
            entries_map(s).dom().contains(k) <==> exists|i: int| 0 <= i < s.len() && s[i].0@ == k,
        forall|i: int| 0 <= i < s.len() ==> #[trigger] entries_map(s)[s[i].0@] == s[i].1,
        entries_map(s).dom().finite(),
        entries_map(s).dom().len() == s.len(),
    decreases s.len(),
{
    if s.len() > 0 {
        let p = s.drop_last();
        assert(distinct_keys(p)) by {
            assert forall|i: int, j: int| 0 <= i < p.len() && 0 <= j < p.len() && i != j implies #[trigger] p[i].0@
                != #[trigger] p[j].0@ by {
                assert(p[i] == s[i] && p[j] == s[j]);
            }
        }
        lemma_entries_map_dom(p);
        let last = s.last();
        assert(!entries_map(p).dom().contains(last.0@)) by {
            if entries_map(p).dom().contains(last.0@) {
                let i = choose|i: int| 0 <= i < p.len() && p[i].0@ == last.0@;
                assert(s[i].0@ == s[s.len() - 1].0@);
            }
        }
        assert forall|k: Seq<char>| #[trigger]
            entries_map(s).dom().contains(k) <==> exists|i: int| 0 <= i < s.len() && s[i].0@ == k by {
            if entries_map(s).dom().contains(k) {
                if k == last.0@ {
                    assert(s[s.len() - 1].0@ == k);
                } else {
                    let i = choose|i: int| 0 <= i < p.len() && p[i].0@ == k;
                    assert(s[i].0@ == k);
                }
            }
            if exists|i: int| 0 <= i < s.len() && s[i].0@ == k {
                let i = choose|i: int| 0 <= i < s.len() && s[i].0@ == k;
                if i < s.len() - 1 {
                    assert(p[i].0@ == k);
                }
            }
        }
        assert forall|i: int| 0 <= i < s.len() implies #[trigger] entries_map(s)[s[i].0@] == s[i].1 by {
            if i < s.len() - 1 {
                assert(p[i] == s[i]);
                assert(s[i].0@ != last.0@);
            }
        }
    }
}

/// Removing an entry removes its key from the map.
pub proof fn lemma_entries_map_remove<T>(s: Seq<(String, T)>, k: int)
    requires
        distinct_keys(s),
        0 <= k < s.len(),
    ensures
        entries_map(s.remove(k)) == entries_map(s).remove(s[k].0@),
        distinct_keys(s.remove(k)),
    decreases s.len(),
{
    let p = s.drop_last();
    assert(distinct_keys(p)) by {
        assert forall|i: int, j: int| 0 <= i < p.len() && 0 <= j < p.len() && i != j implies #[trigger] p[i].0@
            != #[trigger] p[j].0@ by {
            assert(p[i] == s[i] && p[j] == s[j]);
        }
    }
    let r = s.remove(k);
    assert(distinct_keys(r)) by {
        assert forall|i: int, j: int| 0 <= i < r.len() && 0 <= j < r.len() && i != j implies #[trigger] r[i].0@
            != #[trigger] r[j].0@ by {
            let si = if i < k { i } else { i + 1 };
            let sj = if j < k { j } else { j + 1 };
            assert(r[i] == s[si] && r[j] == s[sj]);
        }
    }
    if k == s.len() - 1 {
        assert(r =~= p);
        lemma_entries_map_dom(p);
        assert(!entries_map(p).dom().contains(s[k].0@)) by {
            if entries_map(p).dom().contains(s[k].0@) {
                let i = choose|i: int| 0 <= i < p.len() && p[i].0@ == s[k].0@;
                assert(s[i].0@ == s[k].0@);
            }
        }
        assert(entries_map(s).remove(s[k].0@) =~= entries_map(p));
    } else {
        lemma_entries_map_remove(p, k);
        assert(r.drop_last() =~= p.remove(k));
        assert(r.last() == s.last());
        assert(p[k] == s[k]);
        assert(s[k].0@ != s[s.len() - 1].0@);
        assert(entries_map(r) =~= entries_map(s).remove(s[k].0@));
    }
}

/// Cancellation handles of the tasks being parsed, at most one per task id.
pub struct CancelRegistry<T> {
    entries: Vec<(String, T)>,
}

impl<T> CancelRegistry<T> {
    /// The registered handles by task id.
    pub closed spec fn view(&self) -> Map<Seq<char>, T> {
        entries_map(self.entries@)
    }

    #[verifier::type_invariant]
    spec fn inv(self) -> bool {
        distinct_keys(self.entries@)
    }

    /// An empty registry.
    pub fn new() -> (r: Self)
        ensures
            r.view() == Map::<Seq<char>, T>::empty(),
    {
        CancelRegistry { entries: Vec::new() }
    }

    fn find(&self, task_id: &str) -> (r: Option<usize>)
        ensures
            match r {
                Some(i) => i < self.entries@.len() && self.entries@[i as int].0@ == task_id@,
                None => forall|i: int|
                    0 <= i < self.entries@.len() ==> self.entries@[i].0@ != task_id@,
            },
    {
        let mut i: usize = 0;
        while i < self.entries.len()
            invariant
                i <= self.entries@.len(),
                forall|j: int| 0 <= j < i ==> self.entries@[j].0@ != task_id@,
            decreases self.entries.len() - i,
        {
            if str_eq(self.entries[i].0.as_str(), task_id) {
                return Some(i);
            }
            i = i + 1;
        }
        None
    }

    /// Registers the handle of a task; a handle registered before under the
    /// same id is replaced.
    pub fn register(&mut self, task_id: &str, token: T)
        ensures
            final(self).view() == old(self).view().insert(task_id@, token),
    {
        proof {
            use_type_invariant(&*self);
        }
        let found = self.find(task_id);
        let mut entries: Vec<(String, T)> = Vec::new();
        std::mem::swap(&mut entries, &mut self.entries);
        let ghost before = entries@;
        match found {
            Some(i) => {
                proof {
                    lemma_entries_map_remove(before, i as int);
                }
                entries.remove(i);
            },
            None => {
                proof {
                    lemma_entries_map_dom(before);
                    assert(!entries_map(before).dom().contains(task_id@));
                    assert(entries_map(before).remove(task_id@) =~= entries_map(before));
                }
            },
        }
        let ghost mid = entries@;
        proof {
            assert(distinct_keys(mid));
            assert(entries_map(mid) =~= entries_map(before).remove(task_id@));
            lemma_entries_map_dom(mid);
            assert forall|i: int| 0 <= i < mid.len() implies mid[i].0@ != task_id@ by {
                assert(entries_map(mid).dom().contains(mid[i].0@));
            }
        }
        entries.push((String::from_str(task_id), token));
        proof {
            assert(entries@.drop_last() =~= mid);
            assert(entries_map(entries@) =~= entries_map(before).insert(task_id@, token));
            assert(distinct_keys(entries@)) by {
                assert forall|i: int, j: int|
                    0 <= i < entries@.len() && 0 <= j < entries@.len() && i != j implies #[trigger] entries@[i].0@
                    != #[trigger] entries@[j].0@ by {
                    if i < mid.len() && j < mid.len() {
                        assert(entries@[i] == mid[i] && entries@[j] == mid[j]);
                    } else if i < mid.len() {
                        assert(entries@[i] == mid[i]);
                    } else if j < mid.len() {
                        assert(entries@[j] == mid[j]);
                    }
                }
            }
        }
        self.entries = entries;
    }

    /// Removes the handle of a task, if any.
    pub fn unregister(&mut self, task_id: &str)
        ensures
            final(self).view() == old(self).view().remove(task_id@),
    {
        proof {
            use_type_invariant(&*self);
        }
        let found = self.find(task_id);
        let mut entries: Vec<(String, T)> = Vec::new();
        std::mem::swap(&mut entries, &mut self.entries);
        let ghost before = entries@;
        match found {
            Some(i) => {
                proof {
                    lemma_entries_map_remove(before, i as int);
                }
                entries.remove(i);
            },
            None => {
                proof {
                    lemma_entries_map_dom(before);
                    assert(!entries_map(before).dom().contains(task_id@));
                    assert(entries_map(before).remove(task_id@) =~= entries_map(before));
                }
            },
        }
        self.entries = entries;
    }

    /// The handle registered for a task.
    pub fn get(&self, task_id: &str) -> (r: Option<&T>)
        ensures
            match r {
                Some(t) => self.view().dom().contains(task_id@) && self.view()[task_id@] == *t,
                None => !self.view().dom().contains(task_id@),
            },
    {
        proof {
            use_type_invariant(self);
            lemma_entries_map_dom(self.entries@);
        }
        match self.find(task_id) {
            Some(i) => Some(&self.entries[i].1),
            None => None,
        }
    }

    /// Number of registered tasks.
    pub fn active_count(&self) -> (n: usize)
        ensures
            n == self.view().dom().len(),
    {
        proof {
            use_type_invariant(self);
            lemma_entries_map_dom(self.entries@);
        }
        self.entries.len()
    }

    /// Removes every handle.
    pub fn clear_for_test(&mut self)
        ensures
            final(self).view() == Map::<Seq<char>, T>::empty(),
    {
        self.entries = Vec::new();
    }
}

/// After registering a handle, a lookup of that task finds it.
pub proof fn lemma_register_then_get<T>(m: Map<Seq<char>, T>, id: Seq<char>, t: T)
    ensures
        m.insert(id, t).dom().contains(id),
        m.insert(id, t)[id] == t,
{
}

/// After unregistering a task, a lookup of it finds nothing, and other
/// tasks keep their handles.
pub proof fn lemma_unregister_then_get<T>(m: Map<Seq<char>, T>, id: Seq<char>, other: Seq<char>)
    requires
        other != id,
    ensures
        !m.remove(id).dom().contains(id),
        m.remove(id).dom().contains(other) == m.dom().contains(other),
        m.dom().contains(other) ==> m.remove(id)[other] == m[other],
{
}

} // verus!
