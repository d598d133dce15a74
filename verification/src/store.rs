//! The reference storage backend: an in-memory keyed store of links. Its
//! contents are modelled as a map from identifiers to URLs, and the three
//! operations of the storage contract — create, delete, fetch — are
//! specified against that map. Fetching an absent identifier yields the
//! empty string, the deliberate in-band not-found sentinel.

use vstd::prelude::*;
use crate::model::Link;
use crate::model::StorageError;
use crate::text::str_eq;

verus! {

/// What the fetch operation yields from a store with contents `m`: the
/// stored URL when a mapping for `id` exists, otherwise the empty string
/// (the not-found sentinel).
pub open spec fn get_link_spec(m: Map<Seq<char>, Seq<char>>, id: Seq<char>) -> Seq<char> {
    if m.contains_key(id) {
        m[id]
    } else {
        Seq::empty()
    }
}

/// An in-memory store of links, holding at most one URL per identifier.
pub struct Store {
    links: Vec<Link>,
}

impl View for Store {
    type V = Map<Seq<char>, Seq<char>>;

    closed spec fn view(&self) -> Map<Seq<char>, Seq<char>> {
        Map::new(
            |k: Seq<char>|
                exists|i: int| 0 <= i < self.links@.len() && (#[trigger] self.links@[i].id@) == k,
            |k: Seq<char>|
                self.links@[choose|i: int|
                    0 <= i < self.links@.len() && (#[trigger] self.links@[i].id@) == k].url@,
        )
    }
}

impl Store {
    /// Well-formed: no two entries share an identifier.
    pub closed spec fn wf(&self) -> bool {
        forall|i: int, j: int|
            0 <= i < self.links@.len() && 0 <= j < self.links@.len() && i != j ==> (
            #[trigger] self.links@[i].id@) != (#[trigger] self.links@[j].id@)
    }

    proof fn lemma_entry_in_view(&self, i: int)
        requires
            self.wf(),
            0 <= i < self.links@.len(),
        ensures
            self@.contains_key(self.links@[i].id@),
            self@[self.links@[i].id@] == self.links@[i].url@,
    {
        let k = self.links@[i].id@;
        assert(0 <= i < self.links@.len() && self.links@[i].id@ == k);
        let j = choose|j: int| 0 <= j < self.links@.len() && (#[trigger] self.links@[j].id@) == k;
        assert(j == i);
    }

    proof fn lemma_absent_from_view(&self, k: Seq<char>)
        requires
            forall|i: int| 0 <= i < self.links@.len() ==> (#[trigger] self.links@[i].id@) != k,
        ensures
            !self@.contains_key(k),
    {
    }

    /// An empty store: no identifier resolves to anything.
    pub fn new() -> (s: Store)
        ensures
            s.wf(),
            s@ == Map::<Seq<char>, Seq<char>>::empty(),
    {
        let s = Store { links: Vec::new() };
        proof {
            assert(s@ =~= Map::<Seq<char>, Seq<char>>::empty());
        }
        s
    }

    fn find_index(&self, id: &str) -> (r: Option<usize>)
        ensures
            match r {
                Some(i) => i < self.links@.len() && self.links@[i as int].id@ == id@,
                None => forall|i: int|
                    0 <= i < self.links@.len() ==> (#[trigger] self.links@[i].id@) != id@,
            },
    {
        let n = self.links.len();
        let mut i: usize = 0;
        while i < n
            invariant
                n == self.links@.len(),
                i <= n,
                forall|j: int| 0 <= j < i ==> (#[trigger] self.links@[j].id@) != id@,
            decreases n - i,
        {
            if str_eq(self.links[i].id.as_str(), id) {
                return Some(i);
            }
            i = i + 1;
        }
        None
    }

    fn remove_entry(&mut self, id: &str)
        requires
            old(self).wf(),
        ensures
            final(self).wf(),
            final(self)@ == old(self)@.remove(id@),
            forall|i: int|
                0 <= i < final(self).links@.len() ==> (#[trigger] final(self).links@[i].id@)
                    != id@,
    {
        let idx = self.find_index(id);
        match idx {
            None => {
                proof {
                    self.lemma_absent_from_view(id@);
                    assert(self@.remove(id@) =~= self@);
                }
            },
            Some(i) => {
                let ghost pre = *self;
                self.links.remove(i);
                proof {
                    pre.links@.remove_ensures(i as int);
                    let olds = pre.links@;
                    let news = self.links@;
                    assert forall|a: int, b: int|
                        0 <= a < news.len() && 0 <= b < news.len() && a != b implies (
                    #[trigger] news[a].id@) != (#[trigger] news[b].id@) by {
                        let a0 = if a < i { a } else { a + 1 };
                        let b0 = if b < i { b } else { b + 1 };
                        assert(news[a] == olds[a0]);
                        assert(news[b] == olds[b0]);
                    }
                    assert forall|m: int| 0 <= m < news.len() implies (#[trigger] news[m].id@)
                        != id@ by {
                        let m0 = if m < i { m } else { m + 1 };
                        assert(news[m] == olds[m0]);
                    }
                    assert forall|k: Seq<char>| #[trigger]
                        self@.contains_key(k) implies pre@.remove(id@).contains_key(k)
                        && pre@.remove(id@)[k] == self@[k] by {
                        let m = choose|m: int|
                            0 <= m < news.len() && (#[trigger] news[m].id@) == k;
                        self.lemma_entry_in_view(m);
                        let m0 = if m < i { m } else { m + 1 };
                        assert(news[m] == olds[m0]);
                        pre.lemma_entry_in_view(m0);
                    }
                    assert forall|k: Seq<char>| #[trigger]
                        pre@.remove(id@).contains_key(k) implies self@.contains_key(k) by {
                        let j = choose|j: int|
                            0 <= j < olds.len() && (#[trigger] olds[j].id@) == k;
                        assert(j != i);
                        let m = if j < i { j } else { j - 1 };
                        assert(news[m] == olds[j]);
                        self.lemma_entry_in_view(m);
                    }
                    assert(self@ =~= pre@.remove(id@));
                }
            },
        }
    }

    /// Persists the mapping from `id` to `url`. Any previous mapping for
    /// the same identifier is replaced; the store never refuses a write.
    pub fn create_link(&mut self, id: &str, url: &str) -> (r: Result<(), StorageError>)
        requires
            old(self).wf(),
        ensures
            final(self).wf(),
            r is Ok,
            final(self)@ == old(self)@.insert(id@, url@),
    {
        self.remove_entry(id);
        let ghost mid = *self;
        let link = Link { id: id.to_owned(), url: url.to_owned() };
        self.links.push(link);
        proof {
            let news = self.links@;
            let n = news.len() - 1;
            assert forall|a: int, b: int|
                0 <= a < news.len() && 0 <= b < news.len() && a != b implies (
            #[trigger] news[a].id@) != (#[trigger] news[b].id@) by {
                if a < n && b < n {
                    assert(news[a] == mid.links@[a]);
                    assert(news[b] == mid.links@[b]);
                }
            }
            assert forall|k: Seq<char>| #[trigger]
                self@.contains_key(k) implies mid@.insert(id@, url@).contains_key(k) && mid@.insert(
                id@,
                url@,
            )[k] == self@[k] by {
                let m = choose|m: int| 0 <= m < news.len() && (#[trigger] news[m].id@) == k;
                self.lemma_entry_in_view(m);
                if m < n {
                    assert(news[m] == mid.links@[m]);
                    mid.lemma_entry_in_view(m);
                    assert(k != id@);
                } else {
                    assert(k == id@);
                    assert(news[m].url@ == url@);
                }
            }
            assert forall|k: Seq<char>| #[trigger]
                mid@.insert(id@, url@).contains_key(k) implies self@.contains_key(k) by {
                if k == id@ {
                    assert(news[n].id@ == k);
                    self.lemma_entry_in_view(n);
                } else {
                    let j = choose|j: int|
                        0 <= j < mid.links@.len() && (#[trigger] mid.links@[j].id@) == k;
                    assert(news[j] == mid.links@[j]);
                    self.lemma_entry_in_view(j);
                }
            }
            assert(self@ =~= mid@.insert(id@, url@));
            assert(mid@.insert(id@, url@) =~= old(self)@.remove(id@).insert(id@, url@));
            assert(old(self)@.remove(id@).insert(id@, url@) =~= old(self)@.insert(id@, url@));
        }
        Ok(())
    }

    /// Removes the mapping for `id` if one exists. Deleting an absent
    /// identifier is a success, indistinguishable from a real deletion.
    pub fn delete_link(&mut self, id: &str) -> (r: Result<(), StorageError>)
        requires
            old(self).wf(),
        ensures
            final(self).wf(),
            r is Ok,
            final(self)@ == old(self)@.remove(id@),
    {
        self.remove_entry(id);
        Ok(())
    }

    /// Fetches the URL stored for `id`, or the empty string when no
    /// mapping exists.
    pub fn get_link(&self, id: &str) -> (r: Result<String, StorageError>)
        requires
            self.wf(),
        ensures
            r matches Ok(url) && url@ == get_link_spec(self@, id@),
    {
        let idx = self.find_index(id);
        match idx {
            Some(i) => {
                proof {
                    self.lemma_entry_in_view(i as int);
                }
                Ok(self.links[i].url.clone())
            },
            None => {
                proof {
                    self.lemma_absent_from_view(id@);
                }
                Ok(String::new())
            },
        }
    }
}

/// Law: fetching an identifier right after storing a mapping for it
/// yields exactly the URL that was stored.
pub proof fn lemma_create_then_get(m: Map<Seq<char>, Seq<char>>, id: Seq<char>, url: Seq<char>)
    ensures
        get_link_spec(m.insert(id, url), id) == url,
{
}

/// Law: fetching an identifier that no mapping covers yields the
/// not-found sentinel, the empty string.
pub proof fn lemma_get_absent(m: Map<Seq<char>, Seq<char>>, id: Seq<char>)
    requires
        !m.contains_key(id),
    ensures
        get_link_spec(m, id) == Seq::<char>::empty(),
{
}

/// Law: fetching an identifier right after deleting it yields the
/// not-found sentinel, whatever the store held before.
pub proof fn lemma_delete_then_get(m: Map<Seq<char>, Seq<char>>, id: Seq<char>)
    ensures
        get_link_spec(m.remove(id), id) == Seq::<char>::empty(),
{
}

} // verus!
