//! The thumbnail cache: decoded bitmaps keyed by file path, with bulk
//! pruning against the live directory snapshot.

use vstd::prelude::*;

use crate::filter::{str_eq, vec_contains_str};

verus! {

/// A decoded bitmap, four bytes per pixel.
#[derive(Debug, PartialEq, Eq)]
pub struct ThumbBitmap {
    pub rgba: Vec<u8>,
    pub width: u32,
    pub height: u32,
}

impl ThumbBitmap {
    /// The pixel data holds exactly four bytes for every pixel.
    pub open spec fn wf(&self) -> bool {
        self.rgba@.len() == 4 * (self.width as int) * (self.height as int)
    }
}

/// One unit of thumbnail traffic: a load request when `image` is `None`, a
/// successful response when it is `Some`.
#[derive(Debug, PartialEq, Eq)]
pub struct ThumbImageMsg {
    pub filepath: String,
    pub page: usize,
    pub image: Option<ThumbBitmap>,
}

/// In-memory mapping from file path to a decoded thumbnail response.
///
/// Entries are only inserted or removed, never mutated in place; pruning
/// removes every path that left the directory snapshot.
pub struct ThumbCache {
    entries: Vec<ThumbImageMsg>,
}

impl ThumbCache {
    /// Each path occurs at most once.
    pub closed spec fn wf(&self) -> bool {
        forall|i: int, j: int|
            0 <= i < self.entries@.len() && 0 <= j < self.entries@.len()
                && self.entries@[i].filepath@ == self.entries@[j].filepath@ ==> i == j
    }

    /// Whether the cache holds an entry for the path.
    pub closed spec fn has(&self, p: Seq<char>) -> bool {
        exists|i: int| 0 <= i < self.entries@.len() && self.entries@[i].filepath@ == p
    }

    /// The entry held for the path (meaningful only when `has(p)`).
    pub closed spec fn at(&self, p: Seq<char>) -> ThumbImageMsg {
        self.entries@[choose|i: int|
            0 <= i < self.entries@.len() && self.entries@[i].filepath@ == p]
    }

    /// An empty cache.
    pub fn new() -> (r: ThumbCache)
        ensures
            r.wf(),
            forall|p: Seq<char>| !r.has(p),
    {
        ThumbCache { entries: Vec::new() }
    }

    /// Looks a path up; no side effects.
    pub fn get(&self, path: &str) -> (r: Option<&ThumbImageMsg>)
        requires
            self.wf(),
        ensures
            match r {
                Some(e) => self.has(path@) && *e == self.at(path@),
                None => !self.has(path@),
            },
    {
        let mut i: usize = 0;
        while i < self.entries.len()
            invariant
                self.wf(),
                i <= self.entries@.len(),
                forall|k: int| 0 <= k < i ==> self.entries@[k].filepath@ != path@,
            decreases self.entries@.len() - i,
        {
            if str_eq(self.entries[i].filepath.as_str(), path) {
                return Some(&self.entries[i]);
            }
            i += 1;
        }
        None
    }

    /// Whether the cache holds an entry for the path.
    pub fn contains(&self, path: &str) -> (r: bool)
        requires
            self.wf(),
        ensures
            r == self.has(path@),
    {
        self.get(path).is_some()
    }

    /// Inserts an entry under its own file path, overwriting any prior entry
    /// for that path: a later successful decode always wins.
    pub fn insert(&mut self, entry: ThumbImageMsg)
        requires
            old(self).wf(),
        ensures
            final(self).wf(),
            final(self).has(entry.filepath@),
            final(self).at(entry.filepath@) == entry,
            forall|p: Seq<char>|
                p != entry.filepath@ ==> (#[trigger] final(self).has(p) <==> old(self).has(p)),
            forall|p: Seq<char>|
                p != entry.filepath@ && #[trigger] final(self).has(p) ==> final(self).at(p)
                    == old(self).at(p),
    {
        let mut i: usize = 0;
        while i < self.entries.len()
            invariant
                self.wf(),
                self == old(self),
                i <= self.entries@.len(),
                forall|k: int| 0 <= k < i ==> self.entries@[k].filepath@ != entry.filepath@,
            decreases self.entries@.len() - i,
        {
            if str_eq(self.entries[i].filepath.as_str(), entry.filepath.as_str()) {
                let ghost prev = self.entries@;
                self.entries.set(i, entry);
                proof {
                    assert forall|k: int| 0 <= k < self.entries@.len() implies #[trigger] self
                        .entries@[k].filepath@ == prev[k].filepath@ by {}
                    assert(self.wf());
                    assert(self.has(entry.filepath@)) by {
                        assert(self.entries@[i as int].filepath@ == entry.filepath@);
                    }
                    assert forall|p: Seq<char>|
                        p != entry.filepath@ && #[trigger] self.has(p) implies self.at(p) == old(
                        self,
                    ).at(p) by {
                        let j = choose|j: int|
                            0 <= j < self.entries@.len() && self.entries@[j].filepath@ == p;
                        assert(prev[j].filepath@ == p);
                    }
                    assert forall|p: Seq<char>| p != entry.filepath@ implies (#[trigger] self.has(
                        p,
                    ) <==> old(self).has(p)) by {
                        if self.has(p) {
                            let j = choose|j: int|
                                0 <= j < self.entries@.len() && self.entries@[j].filepath@ == p;
                            assert(prev[j].filepath@ == p);
                        }
                        if old(self).has(p) {
                            let j = choose|j: int| 0 <= j < prev.len() && prev[j].filepath@ == p;
                            assert(self.entries@[j].filepath@ == p);
                        }
                    }
                }
                return ;
            }
            i += 1;
        }
        let ghost prev = self.entries@;
        self.entries.push(entry);
        proof {
            assert(self.entries@[prev.len() as int] == entry);
            assert(self.wf());
            assert forall|p: Seq<char>|
                p != entry.filepath@ && #[trigger] self.has(p) implies self.at(p) == old(
                self,
            ).at(p) by {
                let j = choose|j: int|
                    0 <= j < self.entries@.len() && self.entries@[j].filepath@ == p;
                assert(prev[j].filepath@ == p);
            }
            assert forall|p: Seq<char>| p != entry.filepath@ implies (#[trigger] self.has(
                p,
            ) <==> old(self).has(p)) by {
                if self.has(p) {
                    let j = choose|j: int|
                        0 <= j < self.entries@.len() && self.entries@[j].filepath@ == p;
                    assert(prev[j].filepath@ == p);
                }
                if old(self).has(p) {
                    let j = choose|j: int| 0 <= j < prev.len() && prev[j].filepath@ == p;
                    assert(self.entries@[j].filepath@ == p);
                }
            }
        }
    }

    /// Removes every entry whose path is not in `live`. After pruning, no
    /// cached path exists outside the live set.
    #[verifier::rlimit(100)]
    #[verifier::spinoff_prover]
    pub fn prune(&mut self, live: &Vec<String>)
        requires
            old(self).wf(),
        ensures
            final(self).wf(),
            forall|p: Seq<char>|
                #[trigger] final(self).has(p) <==> old(self).has(p) && live.deep_view().contains(
                    p,
                ),
            forall|p: Seq<char>|
                #[trigger] final(self).has(p) ==> final(self).at(p) == old(self).at(p),
    {
        let ghost all = old(self).entries@;
        let ghost uniq = forall|i: int, j: int|
            0 <= i < all.len() && 0 <= j < all.len() && all[i].filepath@ == all[j].filepath@
                ==> i == j;
        let mut kept: Vec<ThumbImageMsg> = Vec::new();
        proof {
            assert(self.entries@ =~= all.take(all.len() as int));
        }
        loop
            invariant
                uniq,
                self.entries@.len() <= all.len(),
                uniq == (forall|i: int, j: int|
                    0 <= i < all.len() && 0 <= j < all.len() && all[i].filepath@
                        == all[j].filepath@ ==> i == j),
                self.entries@ == all.take(self.entries@.len() as int),
                forall|j: int|
                    0 <= j < kept@.len() ==> exists|i: int|
                        self.entries@.len() <= i < all.len() && #[trigger] kept@[j] == all[i]
                            && kept@[j].filepath@ == all[i].filepath@
                            && live.deep_view().contains(all[i].filepath@),
                forall|i: int|
                    self.entries@.len() <= i < all.len() && live.deep_view().contains(
                        #[trigger] all[i].filepath@,
                    ) ==> exists|j: int| 0 <= j < kept@.len() && kept@[j] == all[i],
                forall|j1: int, j2: int|
                    0 <= j1 < kept@.len() && 0 <= j2 < kept@.len() && kept@[j1].filepath@
                        == kept@[j2].filepath@ ==> j1 == j2,
            ensures
                self.entries@.len() == 0,
                forall|j: int|
                    0 <= j < kept@.len() ==> exists|i: int|
                        0 <= i < all.len() && #[trigger] kept@[j] == all[i]
                            && kept@[j].filepath@ == all[i].filepath@
                            && live.deep_view().contains(all[i].filepath@),
                forall|i: int|
                    0 <= i < all.len() && live.deep_view().contains(
                        #[trigger] all[i].filepath@,
                    ) ==> exists|j: int| 0 <= j < kept@.len() && kept@[j] == all[i],
                forall|j1: int, j2: int|
                    0 <= j1 < kept@.len() && 0 <= j2 < kept@.len() && kept@[j1].filepath@
                        == kept@[j2].filepath@ ==> j1 == j2,
            decreases self.entries@.len(),
        {
            let ghost before = self.entries@;
            match self.entries.pop() {
                Some(e) => {
                    proof {
                        assert(self.entries@ =~= all.take(self.entries@.len() as int));
                        assert(e == all[self.entries@.len() as int]);
                    }
                    if vec_contains_str(live, e.filepath.as_str()) {
                        let ghost kbefore = kept@;
                        kept.push(e);
                        proof {
                            assert(kept@[kept@.len() - 1] == all[self.entries@.len() as int]);
                            assert forall|i: int|
                                self.entries@.len() <= i < all.len() && live.deep_view().contains(
                                    #[trigger] all[i].filepath@,
                                ) implies exists|j: int|
                                0 <= j < kept@.len() && kept@[j] == all[i] by {
                                if i > self.entries@.len() {
                                    let j = choose|j: int|
                                        0 <= j < kbefore.len() && kbefore[j] == all[i];
                                    assert(kept@[j] == all[i]);
                                } else {
                                    assert(kept@[kept@.len() - 1] == all[i]);
                                }
                            }
                        }
                        proof {
                            assert forall|j1: int, j2: int|
                                0 <= j1 < kept@.len() && 0 <= j2 < kept@.len()
                                    && kept@[j1].filepath@ == kept@[j2].filepath@ implies j1
                                == j2 by {
                                if j1 < kbefore.len() && j2 == kbefore.len() {
                                    let i1 = choose|i1: int|
                                        self.entries@.len() + 1 <= i1 < all.len()
                                            && #[trigger] kbefore[j1] == all[i1]
                                            && kbefore[j1].filepath@ == all[i1].filepath@
                                            && live.deep_view().contains(all[i1].filepath@);
                                    assert(all[i1].filepath@ == all[
                                        self.entries@.len() as int].filepath@);
                                }
                                if j2 < kbefore.len() && j1 == kbefore.len() {
                                    let i2 = choose|i2: int|
                                        self.entries@.len() + 1 <= i2 < all.len()
                                            && #[trigger] kbefore[j2] == all[i2]
                                            && kbefore[j2].filepath@ == all[i2].filepath@
                                            && live.deep_view().contains(all[i2].filepath@);
                                    assert(all[i2].filepath@ == all[
                                        self.entries@.len() as int].filepath@);
                                }
                            }
                        }
                    }
                },
                None => {
                    break ;
                },
            }
        }
        self.entries = kept;
        proof {
            assert forall|p: Seq<char>| #[trigger] self.has(p) implies old(self).has(p)
                && live.deep_view().contains(p) by {
                let j = choose|j: int|
                    0 <= j < self.entries@.len() && self.entries@[j].filepath@ == p;
                let i = choose|i: int|
                    0 <= i < all.len() && #[trigger] self.entries@[j] == all[i]
                        && live.deep_view().contains(all[i].filepath@);
            }
            assert forall|p: Seq<char>|
                old(self).has(p) && live.deep_view().contains(p) implies #[trigger] self.has(
                p,
            ) by {
                let i = choose|i: int| 0 <= i < all.len() && all[i].filepath@ == p;
                assert(exists|j: int| 0 <= j < self.entries@.len() && self.entries@[j] == all[i]);
            }
            assert(self.wf()) by {
                assert forall|i: int, j: int|
                    0 <= i < self.entries@.len() && 0 <= j < self.entries@.len()
                        && self.entries@[i].filepath@ == self.entries@[j].filepath@ implies i
                    == j by {
                    let oi = choose|oi: int|
                        0 <= oi < all.len() && #[trigger] self.entries@[i] == all[oi]
                            && live.deep_view().contains(all[oi].filepath@);
                    let oj = choose|oj: int|
                        0 <= oj < all.len() && #[trigger] self.entries@[j] == all[oj]
                            && live.deep_view().contains(all[oj].filepath@);
                }
            }
            assert forall|p: Seq<char>| #[trigger] self.has(p) implies self.at(p) == old(
                self,
            ).at(p) by {
                let j = choose|j: int|
                    0 <= j < self.entries@.len() && self.entries@[j].filepath@ == p;
                let oi = choose|i: int|
                    0 <= i < all.len() && #[trigger] self.entries@[j] == all[i]
                        && self.entries@[j].filepath@ == all[i].filepath@
                        && live.deep_view().contains(all[i].filepath@);
                assert(self.at(p) == self.entries@[j]);
                assert(old(self).at(p) == all[oi]);
            }
        }
    }
}

} // verus!
