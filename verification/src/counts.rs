//! Article counts per feed, rolled up the subscription tree: every entry's
//! count is added to its parent's, one tree row at a time.
use vstd::prelude::*;

verus! {

/// The value under `k`, or 0.
pub open spec fn get0(m: Map<Seq<char>, int>, k: Seq<char>) -> int {
    if m.dom().contains(k) {
        m[k]
    } else {
        0
    }
}

/// The counts the count query returned, a later row for a key replacing an
/// earlier one.
pub open spec fn load_counts(rows: Seq<(Seq<char>, int)>) -> Map<Seq<char>, int>
    decreases rows.len(),
{
    if rows.len() == 0 {
        Map::empty()
    } else {
        load_counts(rows.drop_last()).insert(rows.last().0, rows.last().1)
    }
}

/// One step of the roll-up: the entry's count is added to its parent's.
pub open spec fn roll_up_step(m: Map<Seq<char>, int>, row: (Seq<char>, Option<Seq<char>>)) -> Map<
    Seq<char>,
    int,
> {
    match row.1 {
        None => m,
        Some(p) => m.insert(p, get0(m, p) + get0(m, row.0)),
    }
}

/// The counts after rolling up the rows of `tree`, in order.
pub open spec fn roll_up(m: Map<Seq<char>, int>, tree: Seq<(Seq<char>, Option<Seq<char>>)>) -> Map<
    Seq<char>,
    int,
>
    decreases tree.len(),
{
    if tree.len() == 0 {
        m
    } else {
        roll_up_step(roll_up(m, tree.drop_last()), tree.last())
    }
}

/// Every sum the roll-up forms fits in an `i64`.
pub open spec fn roll_up_fits(m: Map<Seq<char>, int>, tree: Seq<(Seq<char>, Option<Seq<char>>)>) -> bool
    decreases tree.len(),
{
    if tree.len() == 0 {
        true
    } else {
        &&& roll_up_fits(m, tree.drop_last())
        &&& match tree.last().1 {
            None => true,
            Some(p) => {
                let prev = roll_up(m, tree.drop_last());
                i64::MIN <= get0(prev, p) + get0(prev, tree.last().0) <= i64::MAX
            },
        }
    }
}

/// The view of count rows.
pub open spec fn count_rows(v: Seq<(String, i64)>) -> Seq<(Seq<char>, int)> {
    v.map_values(|p: (String, i64)| (p.0@, p.1 as int))
}

/// The view of tree rows (id, parent id).
pub open spec fn tree_rows(v: Seq<(String, Option<String>)>) -> Seq<(Seq<char>, Option<Seq<char>>)> {
    v.map_values(|p: (String, Option<String>)| (p.0@, crate::model::opt_view(&p.1)))
}

/// No key occurs twice.
pub open spec fn keys_unique(e: Seq<(Seq<char>, int)>) -> bool {
    forall|i: int, j: int| 0 <= i < j < e.len() ==> #[trigger] e[i].0 != #[trigger] e[j].0
}

/// The map a list of distinct keys denotes.
pub open spec fn assoc_map(e: Seq<(Seq<char>, int)>) -> Map<Seq<char>, int> {
    Map::new(
        |k: Seq<char>| exists|j: int| 0 <= j < e.len() && e[j].0 == k,
        |k: Seq<char>| e[choose|j: int| 0 <= j < e.len() && e[j].0 == k].1,
    )
}

proof fn lemma_assoc_lookup(e: Seq<(Seq<char>, int)>, j: int)
    requires
        keys_unique(e),
        0 <= j < e.len(),
    ensures
        assoc_map(e).dom().contains(e[j].0),
        assoc_map(e)[e[j].0] == e[j].1,
{
    let k = e[j].0;
    assert(exists|i: int| 0 <= i < e.len() && e[i].0 == k);
    let c = choose|i: int| 0 <= i < e.len() && e[i].0 == k;
    if c != j {
        if c < j {
            assert(e[c].0 != e[j].0);
        } else {
            assert(e[j].0 != e[c].0);
        }
    }
}

proof fn lemma_assoc_update(e: Seq<(Seq<char>, int)>, j: int, v: int)
    requires
        keys_unique(e),
        0 <= j < e.len(),
    ensures
        keys_unique(e.update(j, (e[j].0, v))),
        assoc_map(e.update(j, (e[j].0, v))) == assoc_map(e).insert(e[j].0, v),
{
    let k = e[j].0;
    let f = e.update(j, (k, v));
    assert forall|a: int, b: int| 0 <= a < b < f.len() implies #[trigger] f[a].0 != #[trigger] f[
        b].0 by {
        assert(f[a].0 == e[a].0 && f[b].0 == e[b].0);
    }
    assert forall|x: Seq<char>| #[trigger] assoc_map(f).dom().contains(x) <==> assoc_map(e).insert(
        k,
        v,
    ).dom().contains(x) by {
        if exists|i: int| 0 <= i < f.len() && f[i].0 == x {
            let i = choose|i: int| 0 <= i < f.len() && f[i].0 == x;
            assert(e[i].0 == x);
        }
        if exists|i: int| 0 <= i < e.len() && e[i].0 == x {
            let i = choose|i: int| 0 <= i < e.len() && e[i].0 == x;
            assert(f[i].0 == x);
        }
    }
    assert forall|x: Seq<char>| #[trigger] assoc_map(f).dom().contains(x) implies assoc_map(f)[x]
        == assoc_map(e).insert(k, v)[x] by {
        let i = choose|i: int| 0 <= i < f.len() && f[i].0 == x;
        lemma_assoc_lookup(f, i);
        assert(e[i].0 == x);
        lemma_assoc_lookup(e, i);
        if x == k {
            if i != j {
                if i < j {
                    assert(e[i].0 != e[j].0);
                } else {
                    assert(e[j].0 != e[i].0);
                }
            }
        }
    }
    assert(assoc_map(f) =~= assoc_map(e).insert(k, v));
}

proof fn lemma_assoc_push(e: Seq<(Seq<char>, int)>, k: Seq<char>, v: int)
    requires
        keys_unique(e),
        forall|i: int| 0 <= i < e.len() ==> e[i].0 != k,
    ensures
        keys_unique(e.push((k, v))),
        assoc_map(e.push((k, v))) == assoc_map(e).insert(k, v),
{
    let f = e.push((k, v));
    assert forall|a: int, b: int| 0 <= a < b < f.len() implies #[trigger] f[a].0 != #[trigger] f[
        b].0 by {
        if b < e.len() {
            assert(f[a].0 == e[a].0 && f[b].0 == e[b].0);
        } else {
            assert(f[a].0 == e[a].0);
        }
    }
    assert forall|x: Seq<char>| #[trigger] assoc_map(f).dom().contains(x) <==> assoc_map(e).insert(
        k,
        v,
    ).dom().contains(x) by {
        if exists|i: int| 0 <= i < f.len() && f[i].0 == x {
            let i = choose|i: int| 0 <= i < f.len() && f[i].0 == x;
            if i < e.len() {
                assert(e[i].0 == x);
            }
        }
        if exists|i: int| 0 <= i < e.len() && e[i].0 == x {
            let i = choose|i: int| 0 <= i < e.len() && e[i].0 == x;
            assert(f[i].0 == x);
        }
        if x == k {
            assert(f[e.len() as int].0 == x);
        }
    }
    assert forall|x: Seq<char>| #[trigger] assoc_map(f).dom().contains(x) implies assoc_map(f)[x]
        == assoc_map(e).insert(k, v)[x] by {
        let i = choose|i: int| 0 <= i < f.len() && f[i].0 == x;
        lemma_assoc_lookup(f, i);
        if i < e.len() {
            assert(e[i].0 == x);
            lemma_assoc_lookup(e, i);
        }
    }
    assert(assoc_map(f) =~= assoc_map(e).insert(k, v));
}

proof fn lemma_fits_prefix(m: Map<Seq<char>, int>, t: Seq<(Seq<char>, Option<Seq<char>>)>, n: int)
    requires
        roll_up_fits(m, t),
        0 <= n <= t.len(),
    ensures
        roll_up_fits(m, t.take(n)),
    decreases t.len(),
{
    if n == t.len() {
        assert(t.take(n) =~= t);
    } else {
        assert(t.drop_last().take(n) =~= t.take(n));
        lemma_fits_prefix(m, t.drop_last(), n);
    }
}

/// Counts per key, each key once.
pub struct CountTable {
    entries: Vec<(String, i64)>,
}

impl CountTable {
    pub closed spec fn entries_view(&self) -> Seq<(Seq<char>, int)> {
        count_rows(self.entries@)
    }

    /// The counts as a map.
    pub closed spec fn view(&self) -> Map<Seq<char>, int> {
        assoc_map(self.entries_view())
    }

    /// No key is held twice.
    pub closed spec fn wf(&self) -> bool {
        keys_unique(self.entries_view())
    }

    pub fn new() -> (r: CountTable)
        ensures
            r.wf(),
            r.view() == Map::<Seq<char>, int>::empty(),
    {
        let r = CountTable { entries: Vec::new() };
        assert(r.entries_view() =~= Seq::<(Seq<char>, int)>::empty());
        assert(r.view() =~= Map::<Seq<char>, int>::empty());
        r
    }

    fn find(&self, key: &str) -> (r: Option<usize>)
        requires
            self.wf(),
        ensures
            r matches Some(j) ==> j < self.entries.len() && self.entries_view()[j as int].0
                == key@,
            r is None ==> forall|i: int|
                0 <= i < self.entries.len() ==> self.entries_view()[i].0 != key@,
    {
        let mut i: usize = 0;
        while i < self.entries.len()
            invariant
                0 <= i <= self.entries.len(),
                forall|k: int| 0 <= k < i ==> self.entries_view()[k].0 != key@,
            decreases self.entries.len() - i,
        {
            assert(self.entries_view()[i as int].0 == self.entries@[i as int].0@);
            if crate::text::str_eq(self.entries[i].0.as_str(), key) {
                return Some(i);
            }
            i = i + 1;
        }
        None
    }

    /// The count under `key`, or 0.
    pub fn get_or_zero(&self, key: &str) -> (r: i64)
        requires
            self.wf(),
        ensures
            r == get0(self.view(), key@),
    {
        match self.find(key) {
            Some(j) => {
                proof {
                    lemma_assoc_lookup(self.entries_view(), j as int);
                }
                self.entries[j].1
            },
            None => {
                assert(!self.view().dom().contains(key@));
                0
            },
        }
    }

    /// Sets the count under `key`.
    pub fn set(&mut self, key: &str, value: i64)
        requires
            old(self).wf(),
        ensures
            final(self).wf(),
            final(self).view() == old(self).view().insert(key@, value as int),
    {
        let ghost e = self.entries_view();
        match self.find(key) {
            Some(j) => {
                let k = self.entries[j].0.clone();
                self.entries.set(j, (k, value));
                proof {
                    assert(self.entries_view() =~= e.update(j as int, (e[j as int].0, value as int)));
                    lemma_assoc_update(e, j as int, value as int);
                }
            },
            None => {
                self.entries.push((crate::text::owned(key), value));
                proof {
                    assert(self.entries_view() =~= e.push((key@, value as int)));
                    lemma_assoc_push(e, key@, value as int);
                }
            },
        }
    }

    /// The counts as a list of (key, count), each key once.
    pub fn into_vec(self) -> (r: Vec<(String, i64)>)
        requires
            self.wf(),
        ensures
            keys_unique(count_rows(r@)),
            assoc_map(count_rows(r@)) == self.view(),
    {
        self.entries
    }
}

/// Loads the rows of the count query; a later row for a key replaces an
/// earlier one.
pub fn load_count_rows(rows: &Vec<(String, i64)>) -> (r: CountTable)
    ensures
        r.wf(),
        r.view() == load_counts(count_rows(rows@)),
{
    let mut t = CountTable::new();
    let ghost all = count_rows(rows@);
    let mut i: usize = 0;
    while i < rows.len()
        invariant
            all == count_rows(rows@),
            0 <= i <= rows.len(),
            t.wf(),
            t.view() == load_counts(all.take(i as int)),
        decreases rows.len() - i,
    {
        t.set(rows[i].0.as_str(), rows[i].1);
        assert(all.take(i + 1).drop_last() =~= all.take(i as int));
        i = i + 1;
    }
    assert(all.take(rows.len() as int) =~= all);
    t
}

/// Rolls the counts up the tree: for each row (id, parent) in order, the
/// parent's count grows by the id's count, absent counts being 0. `None`
/// when a sum leaves the `i64` range.
pub fn roll_up_counts(counts: CountTable, tree: &Vec<(String, Option<String>)>) -> (r: Option<
    CountTable,
>)
    requires
        counts.wf(),
    ensures
        r is Some <==> roll_up_fits(counts.view(), tree_rows(tree@)),
        r matches Some(t) ==> t.wf() && t.view() == roll_up(counts.view(), tree_rows(tree@)),
{
    let ghost m0 = counts.view();
    let ghost all = tree_rows(tree@);
    let mut t = counts;
    let mut i: usize = 0;
    while i < tree.len()
        invariant
            all == tree_rows(tree@),
            m0 == counts.view(),
            0 <= i <= tree.len(),
            t.wf(),
            t.view() == roll_up(m0, all.take(i as int)),
            roll_up_fits(m0, all.take(i as int)),
        decreases tree.len() - i,
    {
        let ghost prefix = all.take(i + 1);
        assert(prefix.drop_last() =~= all.take(i as int));
        assert(prefix.last() == all[i as int]);
        match &tree[i].1 {
            None => {},
            Some(parent) => {
                let s = t.get_or_zero(tree[i].0.as_str());
                let p = t.get_or_zero(parent.as_str());
                match p.checked_add(s) {
                    None => {
                        proof {
                            assert(prefix.last().1 == Some(parent@));
                            assert(prefix.last().0 == tree@[i as int].0@);
                            assert(roll_up(m0, prefix.drop_last()) == t.view());
                            assert(!roll_up_fits(m0, prefix));
                            if roll_up_fits(m0, all) {
                                lemma_fits_prefix(m0, all, i + 1);
                            }
                        }
                        return None;
                    },
                    Some(sum) => {
                        t.set(parent.as_str(), sum);
                    },
                }
            },
        }
        i = i + 1;
    }
    assert(all.take(tree.len() as int) =~= all);
    Some(t)
}

/// The counts per feed and folder: the count query's rows, rolled up the
/// tree rows (id, parent). `None` when a sum leaves the `i64` range.
pub fn count_per_feed(rows: &Vec<(String, i64)>, tree: &Vec<(String, Option<String>)>) -> (r:
    Option<Vec<(String, i64)>>)
    ensures
        r is Some <==> roll_up_fits(load_counts(count_rows(rows@)), tree_rows(tree@)),
        r matches Some(v) ==> keys_unique(count_rows(v@)) && assoc_map(count_rows(v@)) == roll_up(
            load_counts(count_rows(rows@)),
            tree_rows(tree@),
        ),
{
    let t = load_count_rows(rows);
    match roll_up_counts(t, tree) {
        Some(t2) => Some(t2.into_vec()),
        None => None,
    }
}

/// Without parent links the roll-up leaves the counts as they are.
pub proof fn lemma_roll_up_without_parents(
    m: Map<Seq<char>, int>,
    tree: Seq<(Seq<char>, Option<Seq<char>>)>,
)
    requires
        forall|i: int| 0 <= i < tree.len() ==> (#[trigger] tree[i]).1 is None,
    ensures
        roll_up(m, tree) == m,
        roll_up_fits(m, tree),
    decreases tree.len(),
{
    if tree.len() > 0 {
        let t = tree.drop_last();
        assert forall|i: int| 0 <= i < t.len() implies (#[trigger] t[i]).1 is None by {
            assert(t[i] == tree[i]);
        }
        lemma_roll_up_without_parents(m, t);
        assert(tree.last() == tree[tree.len() - 1]);
    }
}

} // verus!
