//! The link store: the operations that persist links, and an in-memory store
//! that keeps them in a table.
use vstd::prelude::*;
use crate::link::{Link, Timestamp};
use crate::text::str_eq;

verus! {

/// The time budget of one store operation, in milliseconds.
pub const DB_TIMEOUT_MILLIS: u64 = 400;

/// How a store operation can fail.
#[derive(Debug, Clone, PartialEq, Eq)]
pub enum StoreError {
    /// The operation did not finish within its time budget.
    Timeout,
    /// A row with the same identifier exists already.
    DuplicateIdentifier,
    /// Any other failure of the underlying store.
    Failure(String),
}

impl Link {
    /// A field-by-field copy.
    pub fn duplicate(&self) -> (r: Link)
        ensures
            r == *self,
    {
        Link {
            id: self.id.clone(),
            target_url: self.target_url.clone(),
            count_redirects: self.count_redirects,
            created_at: self.created_at,
            updated_at: self.updated_at,
        }
    }
}

/// A freshly inserted link.
pub open spec fn fresh_link(id: String, target_url: String, now: Timestamp) -> Link {
    Link { id, target_url, count_redirects: 0, created_at: now, updated_at: now }
}

/// `l` after one more redirect at time `now`.
pub open spec fn redirected(l: Link, now: Timestamp) -> Link {
    Link { count_redirects: (l.count_redirects + 1) as i64, updated_at: now, ..l }
}

/// Some link of `links` has the identifier `id`.
pub open spec fn has_id(links: Seq<Link>, id: Seq<char>) -> bool {
    exists|i: int| 0 <= i < links.len() && (#[trigger] links[i]).id@ == id
}

/// The position of the link with identifier `id`.
pub open spec fn index_of_id(links: Seq<Link>, id: Seq<char>) -> int {
    choose|i: int| 0 <= i < links.len() && (#[trigger] links[i]).id@ == id
}

/// The link with identifier `id`, if there is one.
pub open spec fn find_spec(links: Seq<Link>, id: Seq<char>) -> Option<Link> {
    if has_id(links, id) {
        Some(links[index_of_id(links, id)])
    } else {
        None
    }
}

/// No two links share an identifier.
pub open spec fn ids_unique(links: Seq<Link>) -> bool {
    forall|i: int, j: int|
        0 <= i < links.len() && 0 <= j < links.len() && i != j ==> (#[trigger] links[i]).id@
            != (#[trigger] links[j]).id@
}

/// Links kept in memory, in the order of their insertion.
#[derive(Debug, Clone)]
pub struct LinkTable {
    pub links: Vec<Link>,
}

impl LinkTable {
    pub open spec fn view(&self) -> Seq<Link> {
        self.links@
    }

    pub open spec fn wf(&self) -> bool {
        ids_unique(self.view())
    }

    pub fn new() -> (r: Self)
        ensures
            r.wf(),
            r.view() == Seq::<Link>::empty(),
    {
        LinkTable { links: Vec::new() }
    }

    fn position(&self, id: &str) -> (r: Option<usize>)
        requires
            self.wf(),
        ensures
            r is None <==> !has_id(self.view(), id@),
            r is Some ==> r->Some_0 == index_of_id(self.view(), id@) && r->Some_0 < self.view().len(),
    {
        let mut i: usize = 0;
        while i < self.links.len()
            invariant
                self.wf(),
                i <= self.view().len(),
                forall|j: int| 0 <= j < i ==> (#[trigger] self.view()[j]).id@ != id@,
            decreases self.view().len() - i,
        {
            if str_eq(self.links[i].id.as_str(), id) {
                proof {
                    let k = index_of_id(self.view(), id@);
                    assert(self.view()[i as int].id@ == id@);
                    assert(0 <= k < self.view().len() && self.view()[k].id@ == id@);
                    if k != i {
                        assert(self.view()[k].id@ != self.view()[i as int].id@);
                    }
                }
                return Some(i);
            }
            i = i + 1;
        }
        None
    }

    /// Inserts a new link with no redirects. Fails with `DuplicateIdentifier`,
    /// and changes nothing, when the identifier is taken.
    pub fn insert(&mut self, id: String, target_url: String, now: Timestamp) -> (r: Result<
        Link,
        StoreError,
    >)
        requires
            old(self).wf(),
        ensures
            final(self).wf(),
            has_id(old(self).view(), id@) ==> r == Err::<Link, StoreError>(
                StoreError::DuplicateIdentifier,
            ) && final(self).view() == old(self).view(),
            !has_id(old(self).view(), id@) ==> r == Ok::<Link, StoreError>(
                fresh_link(id, target_url, now),
            ) && final(self).view() == old(self).view().push(fresh_link(id, target_url, now)),
    {
        if self.position(id.as_str()).is_some() {
            return Err(StoreError::DuplicateIdentifier);
        }
        let link = Link {
            id,
            target_url,
            count_redirects: 0,
            created_at: now,
            updated_at: now,
        };
        let copy = link.duplicate();
        self.links.push(link);
        proof {
            let v = self.view();
            assert forall|i: int, j: int|
                0 <= i < v.len() && 0 <= j < v.len() && i != j implies (#[trigger] v[i]).id@
                    != (#[trigger] v[j]).id@ by {
                if i == v.len() - 1 {
                    assert(old(self).view()[j] == v[j]);
                } else if j == v.len() - 1 {
                    assert(old(self).view()[i] == v[i]);
                } else {
                    assert(old(self).view()[i] == v[i]);
                    assert(old(self).view()[j] == v[j]);
                }
            }
        }
        Ok(copy)
    }

    /// The link with the given identifier, or `None` when there is none.
    pub fn find_by_id(&self, id: &str) -> (r: Option<Link>)
        requires
            self.wf(),
        ensures
            r == find_spec(self.view(), id@),
    {
        match self.position(id) {
            Some(i) => Some(self.links[i].duplicate()),
            None => None,
        }
    }

    /// Every link, in the order of insertion.
    pub fn list_all(&self) -> (r: Vec<Link>)
        ensures
            r@ == self.view(),
    {
        let mut r: Vec<Link> = Vec::new();
        let mut i: usize = 0;
        while i < self.links.len()
            invariant
                i <= self.view().len(),
                r@ == self.view().subrange(0, i as int),
            decreases self.view().len() - i,
        {
            r.push(self.links[i].duplicate());
            i = i + 1;
            assert(r@ =~= self.view().subrange(0, i as int));
        }
        assert(self.view().subrange(0, self.view().len() as int) =~= self.view());
        r
    }

    /// Adds one to the redirect count of the link with the given identifier
    /// and refreshes its modification time, in a single step. Returns the
    /// updated link, `None` when there is no such link, or a `Failure` when the
    /// count cannot grow any further.
    pub fn increment_redirect_count(&mut self, id: &str, now: Timestamp) -> (r: Result<
        Option<Link>,
        StoreError,
    >)
        requires
            old(self).wf(),
        ensures
            final(self).wf(),
            !has_id(old(self).view(), id@) ==> r == Ok::<Option<Link>, StoreError>(None)
                && final(self).view() == old(self).view(),
            has_id(old(self).view(), id@) ==> {
                let i = index_of_id(old(self).view(), id@);
                let l = old(self).view()[i];
                if l.count_redirects == i64::MAX {
                    r is Err && r->Err_0 is Failure && final(self).view() == old(self).view()
                } else {
                    r == Ok::<Option<Link>, StoreError>(Some(redirected(l, now)))
                        && final(self).view() == old(self).view().update(i, redirected(l, now))
                }
            },
    {
        match self.position(id) {
            None => Ok(None),
            Some(i) => {
                let mut link = self.links[i].duplicate();
                if link.count_redirects == i64::MAX {
                    return Err(
                        StoreError::Failure(String::from_str("redirect count out of range")),
                    );
                }
                link.count_redirects = link.count_redirects + 1;
                link.updated_at = now;
                let copy = link.duplicate();
                self.links.set(i, link);
                proof {
                    let v = self.view();
                    assert forall|a: int, b: int|
                        0 <= a < v.len() && 0 <= b < v.len() && a != b implies (#[trigger] v[a]).id@
                            != (#[trigger] v[b]).id@ by {
                        assert(v[a].id@ == old(self).view()[a].id@);
                        assert(v[b].id@ == old(self).view()[b].id@);
                    }
                }
                Ok(Some(copy))
            },
        }
    }
}

} // verus!
