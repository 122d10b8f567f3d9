//! The registry of active downloads: a map from download identifier to the
//! one-shot signal that cancels it.
//!
//! An entry exists exactly while its download is active. The registry is
//! generic in the signal it stores; the runtime wraps one registry in a
//! mutex and shares it between the cancel handler and the supervisors, so
//! every operation here is a single short critical section.

use vstd::prelude::*;

use crate::text::str_eq;

verus! {

/// One registered download: its identifier and its cancellation signal.
struct RegistryEntry<S> {
    id: String,
    signal: S,
}

/// The registry, modelled as a map from identifier to signal.
pub struct CancelRegistry<S> {
    entries: Vec<RegistryEntry<S>>,
}

spec fn distinct_ids<S>(s: Seq<RegistryEntry<S>>) -> bool {
    forall|i: int, j: int| 0 <= i < j < s.len() ==> s[i].id@ != s[j].id@
}

spec fn entries_map<S>(s: Seq<RegistryEntry<S>>) -> Map<Seq<char>, S>
    decreases s.len(),
{
    if s.len() == 0 {
        Map::<Seq<char>, S>::empty()
    } else {
        entries_map(s.drop_last()).insert(s.last().id@, s.last().signal)
    }
}

proof fn lemma_entries_map_contains<S>(s: Seq<RegistryEntry<S>>, k: Seq<char>)
    ensures
        entries_map(s).dom().contains(k) <==> exists|i: int| 0 <= i < s.len() && s[i].id@ == k,
    decreases s.len(),
{
    if s.len() > 0 {
        lemma_entries_map_contains(s.drop_last(), k);
        if s.last().id@ == k {
            assert(s[s.len() - 1].id@ == k);
        } else if entries_map(s).dom().contains(k) {
            let i = choose|i: int| 0 <= i < s.drop_last().len() && s.drop_last()[i].id@ == k;
            assert(s[i].id@ == k);
        } else if exists|i: int| 0 <= i < s.len() && s[i].id@ == k {
            let i = choose|i: int| 0 <= i < s.len() && s[i].id@ == k;
            assert(i < s.len() - 1);
            assert(s.drop_last()[i].id@ == k);
        }
    }
}

proof fn lemma_entries_map_index<S>(s: Seq<RegistryEntry<S>>, i: int)
    requires
        distinct_ids(s),
        0 <= i < s.len(),
    ensures
        entries_map(s).dom().contains(s[i].id@),
        entries_map(s)[s[i].id@] == s[i].signal,
    decreases s.len(),
{
    if i == s.len() - 1 {
    } else {
        assert(distinct_ids(s.drop_last())) by {
            assert forall|a: int, b: int|
                0 <= a < b < s.drop_last().len() implies s.drop_last()[a].id@
                != s.drop_last()[b].id@ by {
                assert(s[a].id@ != s[b].id@);
            }
        }
        assert(s.drop_last()[i] == s[i]);
        lemma_entries_map_index(s.drop_last(), i);
        assert(s[i].id@ != s.last().id@);
    }
}

proof fn lemma_distinct_drop_last<S>(s: Seq<RegistryEntry<S>>)
    requires
        distinct_ids(s),
        s.len() > 0,
    ensures
        distinct_ids(s.drop_last()),
{
    assert forall|a: int, b: int|
        0 <= a < b < s.drop_last().len() implies s.drop_last()[a].id@ != s.drop_last()[b].id@ by {
        assert(s[a].id@ != s[b].id@);
    }
}

proof fn lemma_entries_map_remove<S>(s: Seq<RegistryEntry<S>>, i: int)
    requires
        distinct_ids(s),
        0 <= i < s.len(),
    ensures
        entries_map(s.remove(i)) =~= entries_map(s).remove(s[i].id@),
    decreases s.len(),
{
    let k = s[i].id@;
    lemma_distinct_drop_last(s);
    if i == s.len() - 1 {
        assert(s.remove(i) =~= s.drop_last());
        lemma_entries_map_contains(s.drop_last(), k);
        assert forall|a: int| 0 <= a < s.drop_last().len() implies s.drop_last()[a].id@ != k by {
            assert(s[a].id@ != s[s.len() - 1].id@);
        }
        assert(!entries_map(s.drop_last()).dom().contains(k));
        assert(entries_map(s).remove(k) =~= entries_map(s.drop_last()));
    } else {
        assert(s.remove(i).drop_last() =~= s.drop_last().remove(i));
        assert(s.remove(i).last() == s.last());
        lemma_entries_map_remove(s.drop_last(), i);
        assert(s.drop_last()[i] == s[i]);
        assert(k != s.last().id@);
        assert(entries_map(s.remove(i)) =~= entries_map(s.drop_last().remove(i)).insert(
            s.last().id@,
            s.last().signal,
        ));
        assert(entries_map(s.drop_last()).remove(k).insert(s.last().id@, s.last().signal)
            =~= entries_map(s.drop_last()).insert(s.last().id@, s.last().signal).remove(k));
    }
}

proof fn lemma_distinct_remove<S>(s: Seq<RegistryEntry<S>>, i: int)
    requires
        distinct_ids(s),
        0 <= i < s.len(),
    ensures
        distinct_ids(s.remove(i)),
{
    assert forall|a: int, b: int|
        0 <= a < b < s.remove(i).len() implies s.remove(i)[a].id@ != s.remove(i)[b].id@ by {
        let a0 = if a < i {
            a
        } else {
            a + 1
        };
        let b0 = if b < i {
            b
        } else {
            b + 1
        };
        assert(s.remove(i)[a] == s[a0]);
        assert(s.remove(i)[b] == s[b0]);
        assert(s[a0].id@ != s[b0].id@);
    }
}

impl<S> CancelRegistry<S> {
    /// The registry is well-formed: no identifier occurs twice.
    pub closed spec fn wf(&self) -> bool {
        distinct_ids(self.entries@)
    }

    /// An empty registry.
    pub fn new() -> (r: Self)
        ensures
            r.wf(),
            r@ == Map::<Seq<char>, S>::empty(),
    {
        CancelRegistry { entries: Vec::new() }
    }

    /// Index of the entry for `id`, when one exists.
    fn position_of(&self, id: &str) -> (r: Option<usize>)
        ensures
            match r {
                Some(i) => i < self.entries@.len() && self.entries@[i as int].id@ == id@,
                None => forall|i: int| 0 <= i < self.entries@.len() ==> self.entries@[i].id@ != id@,
            },
    {
        let n = self.entries.len();
        let mut i: usize = 0;
        while i < n
            invariant
                i <= n,
                n == self.entries@.len(),
                forall|j: int| 0 <= j < i ==> self.entries@[j].id@ != id@,
            decreases n - i,
        {
            if str_eq(self.entries[i].id.as_str(), id) {
                return Some(i);
            }
            i += 1;
        }
        None
    }

    /// Whether `id` has an active entry.
    pub fn contains(&self, id: &str) -> (r: bool)
        requires
            self.wf(),
        ensures
            r == self@.dom().contains(id@),
    {
        proof {
            lemma_entries_map_contains(self.entries@, id@);
        }
        match self.position_of(id) {
            Some(_) => true,
            None => false,
        }
    }

    /// Registers the download `id` with its cancellation signal. The
    /// caller guarantees that `id` has no active entry yet: identifiers
    /// are caller-assigned and unique per in-flight download.
    pub fn register(&mut self, id: String, signal: S)
        requires
            old(self).wf(),
            !old(self)@.dom().contains(id@),
        ensures
            final(self).wf(),
            final(self)@ == old(self)@.insert(id@, signal),
    {
        proof {
            lemma_entries_map_contains(old(self).entries@, id@);
        }
        let ghost s0 = self.entries@;
        let entry = RegistryEntry { id, signal };
        self.entries.push(entry);
        proof {
            assert(self.entries@.drop_last() =~= s0);
            assert forall|a: int, b: int|
                0 <= a < b < self.entries@.len() implies self.entries@[a].id@
                != self.entries@[b].id@ by {
                if b < s0.len() {
                    assert(s0[a].id@ != s0[b].id@);
                } else {
                    assert(self.entries@[b] == self.entries@.last());
                }
            }
        }
    }

    /// Removes and returns the cancellation signal of `id`, if an entry is
    /// active: the caller then fires it. Returns nothing, and changes
    /// nothing, when `id` has no active entry.
    pub fn cancel(&mut self, id: &str) -> (r: Option<S>)
        requires
            old(self).wf(),
        ensures
            final(self).wf(),
            match r {
                Some(signal) => old(self)@.dom().contains(id@) && signal == old(self)@[id@]
                    && final(self)@ == old(self)@.remove(id@),
                None => !old(self)@.dom().contains(id@) && final(self)@ == old(self)@,
            },
    {
        proof {
            lemma_entries_map_contains(self.entries@, id@);
        }
        match self.position_of(id) {
            Some(i) => {
                proof {
                    lemma_entries_map_index(self.entries@, i as int);
                    lemma_entries_map_remove(self.entries@, i as int);
                    lemma_distinct_remove(self.entries@, i as int);
                }
                let entry = self.entries.remove(i);
                Some(entry.signal)
            },
            None => None,
        }
    }

    /// Removes the entry of `id` if one is still active; the supervisor
    /// calls this once on every exit path, and a second call changes
    /// nothing.
    pub fn remove(&mut self, id: &str)
        requires
            old(self).wf(),
        ensures
            final(self).wf(),
            final(self)@ == old(self)@.remove(id@),
    {
        let r = self.cancel(id);
        proof {
            if r is None {
                assert(old(self)@.remove(id@) =~= old(self)@);
            }
        }
    }
}

impl<S> View for CancelRegistry<S> {
    type V = Map<Seq<char>, S>;

    closed spec fn view(&self) -> Map<Seq<char>, S> {
        entries_map(self.entries@)
    }
}

/// Law: cancelling an active identifier removes its entry, so an
/// immediately subsequent cancel of the same identifier finds nothing.
pub proof fn lemma_cancel_then_not_found<S>(m: Map<Seq<char>, S>, id: Seq<char>)
    requires
        m.dom().contains(id),
    ensures
        !m.remove(id).dom().contains(id),
{
}

/// Law: cancelling one identifier never touches the entry of another, so
/// concurrent downloads with distinct identifiers cannot interfere through
/// the registry.
pub proof fn lemma_cancel_leaves_others<S>(m: Map<Seq<char>, S>, id: Seq<char>, other: Seq<char>)
    requires
        id != other,
    ensures
        m.remove(id).dom().contains(other) == m.dom().contains(other),
        m.dom().contains(other) ==> m.remove(id)[other] == m[other],
{
}

} // verus!
