//! A set of strings kept as a list without repeats.
use vstd::prelude::*;

use crate::text::views;

verus! {

/// A set of strings, each held once, in the order first added.
pub struct StringSet {
    items: Vec<String>,
}

impl StringSet {
    /// The set of items.
    pub closed spec fn view(&self) -> Set<Seq<char>> {
        views(self.items@).to_set()
    }

    /// No item is held twice.
    pub closed spec fn wf(&self) -> bool {
        views(self.items@).no_duplicates()
    }

    /// The number of items.
    pub closed spec fn spec_len(&self) -> nat {
        self.items@.len()
    }

    /// An empty set.
    pub fn new() -> (r: StringSet)
        ensures
            r.wf(),
            r.view() == Set::<Seq<char>>::empty(),
    {
        let r = StringSet { items: Vec::new() };
        assert(views(r.items@) =~= Seq::<Seq<char>>::empty());
        r
    }

    /// Whether `item` is held.
    pub fn contains(&self, item: &str) -> (b: bool)
        ensures
            b == self.view().contains(item@),
    {
        let ghost v = views(self.items@);
        let mut i: usize = 0;
        while i < self.items.len()
            invariant
                v == views(self.items@),
                0 <= i <= self.items.len(),
                forall|k: int| 0 <= k < i ==> v[k] != item@,
            decreases self.items.len() - i,
        {
            assert(v[i as int] == self.items@[i as int]@);
            if crate::text::str_eq(self.items[i].as_str(), item) {
                assert(v[i as int] == item@);
                return true;
            }
            i = i + 1;
        }
        assert(!v.contains(item@));
        false
    }

    /// Adds `item`; an item already held is not added again.
    pub fn insert(&mut self, item: &str)
        requires
            old(self).wf(),
        ensures
            final(self).wf(),
            final(self).view() == old(self).view().insert(item@),
    {
        if !self.contains(item) {
            let ghost before = views(self.items@);
            self.items.push(crate::text::owned(item));
            assert(views(self.items@) =~= before.push(item@));
            proof {
                assert(!before.contains(item@));
                assert(views(self.items@).to_set() =~= before.to_set().insert(item@)) by {
                    assert forall|x: Seq<char>|
                        views(self.items@).contains(x) <==> before.contains(x) || x == item@ by {
                        if views(self.items@).contains(x) {
                            let k = choose|k: int|
                                0 <= k < views(self.items@).len() && views(self.items@)[k] == x;
                            if k < before.len() {
                                assert(before[k] == x);
                            }
                        }
                        if before.contains(x) {
                            let k = choose|k: int| 0 <= k < before.len() && before[k] == x;
                            assert(views(self.items@)[k] == x);
                        }
                        if x == item@ {
                            assert(views(self.items@)[before.len() as int] == x);
                        }
                    }
                }
            }
        } else {
            assert(self.view().insert(item@) =~= self.view());
        }
    }

    /// The items, in the order first added.
    pub fn to_vec(&self) -> (r: Vec<String>)
        requires
            self.wf(),
        ensures
            views(r@).to_set() == self.view(),
            views(r@).no_duplicates(),
    {
        let mut r: Vec<String> = Vec::new();
        let mut i: usize = 0;
        while i < self.items.len()
            invariant
                0 <= i <= self.items.len(),
                views(r@) == views(self.items@).take(i as int),
            decreases self.items.len() - i,
        {
            let ghost before = r@;
            let c = self.items[i].clone();
            r.push(c);
            assert(views(r@) =~= views(before).push(c@));
            assert(views(r@) =~= views(self.items@).take(i + 1));
            i = i + 1;
        }
        assert(views(self.items@).take(self.items.len() as int) =~= views(self.items@));
        r
    }

    /// Adds every item of `items`.
    pub fn extend(&mut self, items: &Vec<String>)
        requires
            old(self).wf(),
        ensures
            final(self).wf(),
            final(self).view() == old(self).view().union(views(items@).to_set()),
    {
        let ghost start = self.view();
        let mut i: usize = 0;
        while i < items.len()
            invariant
                0 <= i <= items.len(),
                self.wf(),
                self.view() == start.union(views(items@).take(i as int).to_set()),
            decreases items.len() - i,
        {
            self.insert(items[i].as_str());
            proof {
                let t = views(items@).take(i + 1);
                assert(t =~= views(items@).take(i as int).push(items@[i as int]@));
                assert(t.to_set() =~= views(items@).take(i as int).to_set().insert(
                    items@[i as int]@,
                )) by {
                    assert forall|x: Seq<char>| t.contains(x) <==> views(items@).take(
                        i as int,
                    ).contains(x) || x == items@[i as int]@ by {
                        let p = views(items@).take(i as int);
                        if t.contains(x) {
                            let k = choose|k: int| 0 <= k < t.len() && t[k] == x;
                            if k < p.len() {
                                assert(p[k] == x);
                            }
                        }
                        if p.contains(x) {
                            let k = choose|k: int| 0 <= k < p.len() && p[k] == x;
                            assert(t[k] == x);
                        }
                        if x == items@[i as int]@ {
                            assert(t[i as int] == x);
                        }
                    }
                }
                assert(self.view() =~= start.union(t.to_set()));
            }
            i = i + 1;
        }
        assert(views(items@).take(items.len() as int) =~= views(items@));
    }
}

} // verus!
