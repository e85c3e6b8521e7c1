//! A process-lifetime memo table from absolute directory paths to listing
//! snapshots. Lookups after the first return the stored snapshot; there is
//! no invalidation and no eviction, a stated design limit of this engine:
//! the table grows with the distinct directories visited in one session, and
//! callers that need freshness must bypass it explicitly.

use vstd::prelude::*;
use crate::dir_list::{DirList, DirListView, view_wf};
use crate::errors::NavError;
use crate::fs_path::AbsPath;

verus! {

/// The memo table. Its view is the map from path values to listing values.
pub struct DirectoryCache {
    entries: Vec<(AbsPath, DirList)>,
}

/// The map a sequence of path-listing pairs denotes; a later pair with the
/// same key would win, though the cache never stores one.
pub open spec fn entries_map(s: Seq<(AbsPath, DirList)>) -> Map<Seq<Seq<char>>, DirListView>
    decreases s.len(),
{
    if s.len() == 0 {
        Map::empty()
    } else {
        entries_map(s.drop_last()).insert(s.last().0@, s.last().1@)
    }
}

/// Whether the stored keys are pairwise distinct.
pub open spec fn keys_distinct(s: Seq<(AbsPath, DirList)>) -> bool {
    forall|i: int, j: int| 0 <= i < j < s.len() ==> s[i].0@ != s[j].0@
}

/// Every listing a distinct-keyed pair sequence stores is found at its key.
proof fn lemma_entries_map_index(s: Seq<(AbsPath, DirList)>, i: int)
    requires
        0 <= i < s.len(),
        forall|j: int| i < j < s.len() ==> s[j].0@ != s[i].0@,
    ensures
        entries_map(s).contains_key(s[i].0@),
        entries_map(s)[s[i].0@] == s[i].1@,
    decreases s.len(),
{
    if i == s.len() - 1 {
    } else {
        lemma_entries_map_index(s.drop_last(), i);
    }
}

/// A key lies in the map of a pair sequence exactly when some pair holds it.
proof fn lemma_entries_map_domain(s: Seq<(AbsPath, DirList)>, k: Seq<Seq<char>>)
    ensures
        entries_map(s).contains_key(k) <==> exists|i: int| 0 <= i < s.len() && s[i].0@ == k,
    decreases s.len(),
{
    if s.len() > 0 {
        lemma_entries_map_domain(s.drop_last(), k);
        if entries_map(s).contains_key(k) {
            if s.last().0@ == k {
                assert(s[s.len() - 1].0@ == k);
            } else {
                let i = choose|i: int| 0 <= i < s.drop_last().len() && s.drop_last()[i].0@ == k;
                assert(s[i].0@ == k);
            }
        }
        if exists|i: int| 0 <= i < s.len() && s[i].0@ == k {
            let i = choose|i: int| 0 <= i < s.len() && s[i].0@ == k;
            if i < s.len() - 1 {
                assert(s.drop_last()[i].0@ == k);
            }
        }
    }
}

/// What one memoized fetch does to a cache value: a present key returns its
/// listing and changes nothing; an absent key stores the freshly built
/// listing and returns it.
pub open spec fn get_or_build_view(
    m: Map<Seq<Seq<char>>, DirListView>,
    path: Seq<Seq<char>>,
    fresh: DirListView,
) -> (Map<Seq<Seq<char>>, DirListView>, DirListView) {
    if m.contains_key(path) {
        (m, m[path])
    } else {
        (m.insert(path, fresh), fresh)
    }
}

/// Cache idempotence law: two memoized fetches of the same path, with no
/// intervening change, yield the same listing both times, and the second
/// leaves the cache exactly as the first left it — whatever listing a second
/// build would have produced, so no second build is ever consulted.
pub proof fn lemma_cache_idempotent(
    m: Map<Seq<Seq<char>>, DirListView>,
    path: Seq<Seq<char>>,
    fresh1: DirListView,
    fresh2: DirListView,
)
    ensures
        ({
            let first = get_or_build_view(m, path, fresh1);
            let second = get_or_build_view(first.0, path, fresh2);
            second.0 == first.0 && second.1 == first.1
        }),
{
}

impl View for DirectoryCache {
    type V = Map<Seq<Seq<char>>, DirListView>;

    closed spec fn view(&self) -> Map<Seq<Seq<char>>, DirListView> {
        entries_map(self.entries@)
    }
}

impl DirectoryCache {
    /// The stored keys are pairwise distinct and every stored listing is one
    /// a machine can hold.
    pub closed spec fn wf(&self) -> bool {
        &&& keys_distinct(self.entries@)
        &&& forall|i: int| 0 <= i < self.entries@.len() ==> view_wf(#[trigger] self.entries@[i].1@)
    }

    /// An empty cache.
    pub fn new() -> (c: DirectoryCache)
        ensures
            c.wf(),
            c@ == Map::<Seq<Seq<char>>, DirListView>::empty(),
    {
        DirectoryCache { entries: Vec::new() }
    }

    /// The cached listing for a path, if one is stored. A hit needs no
    /// directory read; a miss is how a caller learns one is owed.
    pub fn lookup(&self, path: &AbsPath) -> (r: Option<DirList>)
        requires
            self.wf(),
        ensures
            match r {
                Some(dl) => self@.contains_key(path@) && dl@ == self@[path@] && dl.wf(),
                None => !self@.contains_key(path@),
            },
    {
        let n: usize = self.entries.len();
        for i in 0..n
            invariant
                n == self.entries.len(),
                self.wf(),
                forall|j: int| 0 <= j < i ==> self.entries@[j].0@ != path@,
        {
            if self.entries[i].0.same_path(path) {
                proof {
                    lemma_entries_map_index(self.entries@, i as int);
                }
                return Some(self.entries[i].1.duplicate());
            }
        }
        proof {
            lemma_entries_map_domain(self.entries@, path@);
        }
        None
    }

    /// The memoized fetch: return the cached listing for the path, storing
    /// the freshly built one first on a miss. A failed build is returned as
    /// the error and stores nothing — errors are never cached — and a hit
    /// returns the stored listing whatever the build outcome was.
    pub fn get_or_build(&mut self, path: &AbsPath, fresh: Result<DirList, NavError>) -> (r: Result<
        DirList,
        NavError,
    >)
        requires
            old(self).wf(),
            fresh matches Ok(dl) ==> dl.wf(),
        ensures
            final(self).wf(),
            match fresh {
                Ok(dl) => {
                    let step = get_or_build_view(old(self)@, path@, dl@);
                    &&& final(self)@ == step.0
                    &&& r matches Ok(out) && out@ == step.1 && out.wf()
                },
                Err(e) => {
                    &&& final(self)@ == old(self)@
                    &&& if old(self)@.contains_key(path@) {
                        r matches Ok(out) && out@ == old(self)@[path@] && out.wf()
                    } else {
                        r == Err::<DirList, NavError>(e)
                    }
                },
            },
    {
        let cached = self.lookup(path);
        match cached {
            Some(dl) => Ok(dl),
            None => match fresh {
                Ok(dl) => {
                    let out = dl.duplicate();
                    proof {
                        lemma_entries_map_domain(self.entries@, path@);
                        assert(forall|j: int| 0 <= j < self.entries@.len()
                            ==> #[trigger] self.entries@[j].0@ != path@);
                    }
                    let key = path.duplicate();
                    self.entries.push((key, dl));
                    proof {
                        assert(self.entries@.drop_last() =~= old(self).entries@);
                        assert(self@ == old(self)@.insert(path@, self.entries@.last().1@));
                    }
                    Ok(out)
                },
                Err(e) => Err(e),
            },
        }
    }
}

} // verus!
