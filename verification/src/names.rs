//! A map from names to values, kept in lexicographic order of the names.

use vstd::prelude::*;

use crate::text::{
    lemma_lex_asymmetric, lemma_lex_irreflexive, lemma_lex_total, lemma_lex_transitive, lex_lt,
    list_contains, same_text, text_less, views,
};

verus! {

/// Names that are strictly increasing, hence distinct.
pub open spec fn sorted_names(ks: Seq<Seq<char>>) -> bool {
    forall|i: int, j: int| 0 <= i < j < ks.len() ==> lex_lt(#[trigger] ks[i], #[trigger] ks[j])
}

/// The names of a sequence of named entries.
pub open spec fn names_of<V>(ps: Seq<(Seq<char>, V)>) -> Seq<Seq<char>> {
    ps.map_values(|p: (Seq<char>, V)| p.0)
}

/// A name passes a selection when it is not skipped and, where a list of
/// wanted names is given (non-empty), it is on that list.
pub open spec fn selected(name: Seq<char>, skip: Seq<Seq<char>>, only: Seq<Seq<char>>) -> bool {
    !skip.contains(name) && (only.len() == 0 || only.contains(name))
}

/// The selection as a predicate on named entries.
pub open spec fn selector<V>(skip: Seq<Seq<char>>, only: Seq<Seq<char>>) -> spec_fn((Seq<char>, V)) -> bool {
    |p: (Seq<char>, V)| selected(p.0, skip, only)
}

/// The map that named entries with distinct names describe.
pub open spec fn map_of<V>(ps: Seq<(Seq<char>, V)>) -> Map<Seq<char>, V> {
    Map::new(
        |k: Seq<char>| names_of(ps).contains(k),
        |k: Seq<char>| ps[names_of(ps).index_of(k)].1,
    )
}

/// In sorted entries, the entry named `ps[i].0` is `ps[i]`.
pub proof fn lemma_map_of_at<V>(ps: Seq<(Seq<char>, V)>, i: int)
    requires
        sorted_names(names_of(ps)),
        0 <= i < ps.len(),
    ensures
        map_of(ps).contains_key(ps[i].0),
        map_of(ps)[ps[i].0] == ps[i].1,
{
    let ks = names_of(ps);
    assert(ks[i] == ps[i].0);
    assert(ks.contains(ps[i].0));
    let j = ks.index_of(ps[i].0);
    if j != i {
        if j < i {
            assert(lex_lt(ks[j], ks[i]));
        } else {
            assert(lex_lt(ks[i], ks[j]));
        }
        lemma_lex_irreflexive(ps[i].0);
    }
}

/// Inserting an entry at its place adds it to the map.
pub proof fn lemma_map_of_insert<V>(ps: Seq<(Seq<char>, V)>, p: int, kv: (Seq<char>, V))
    requires
        0 <= p <= ps.len(),
        sorted_names(names_of(ps)),
        sorted_names(names_of(ps.insert(p, kv))),
    ensures
        map_of(ps.insert(p, kv)) == map_of(ps).insert(kv.0, kv.1),
{
    let qs = ps.insert(p, kv);
    let a = map_of(qs);
    let b = map_of(ps).insert(kv.0, kv.1);
    assert forall|k: Seq<char>| a.contains_key(k) <==> b.contains_key(k) by {
        if names_of(qs).contains(k) {
            let j = choose|j: int| 0 <= j < names_of(qs).len() && names_of(qs)[j] == k;
            if j < p {
                assert(names_of(ps)[j] == k);
            } else if j > p {
                assert(names_of(qs)[j] == names_of(ps)[j - 1]);
            }
        }
        if names_of(ps).contains(k) {
            let j = choose|j: int| 0 <= j < names_of(ps).len() && names_of(ps)[j] == k;
            if j < p {
                assert(names_of(qs)[j] == names_of(ps)[j]);
            } else {
                assert(names_of(qs)[j + 1] == k);
            }
        }
        if k == kv.0 {
            assert(names_of(qs)[p] == k);
        }
    }
    assert forall|k: Seq<char>| #[trigger] a.contains_key(k) implies a[k] == b[k] by {
        let j = choose|j: int| 0 <= j < names_of(qs).len() && names_of(qs)[j] == k;
        lemma_map_of_at(qs, j);
        assert(names_of(qs)[p] == kv.0);
        if j < p {
            assert(qs[j] == ps[j]);
            lemma_map_of_at(ps, j);
            assert(lex_lt(names_of(qs)[j], names_of(qs)[p]));
            lemma_lex_irreflexive(k);
        } else if j > p {
            assert(qs[j] == ps[j - 1]);
            lemma_map_of_at(ps, j - 1);
            assert(lex_lt(names_of(qs)[p], names_of(qs)[j]));
            lemma_lex_irreflexive(k);
        } else {
            assert(qs[j] == kv);
        }
    }
    assert(a =~= b);
}

/// Replacing the entry at a position by one with the same name updates the map.
pub proof fn lemma_map_of_update<V>(ps: Seq<(Seq<char>, V)>, p: int, kv: (Seq<char>, V))
    requires
        0 <= p < ps.len(),
        sorted_names(names_of(ps)),
        names_of(ps)[p] == kv.0,
    ensures
        map_of(ps.update(p, kv)) == map_of(ps).insert(kv.0, kv.1),
{
    let qs = ps.update(p, kv);
    assert(names_of(qs) =~= names_of(ps));
    let a = map_of(qs);
    let b = map_of(ps).insert(kv.0, kv.1);
    assert forall|k: Seq<char>| a.contains_key(k) <==> b.contains_key(k) by {
        if k == kv.0 {
            assert(names_of(ps)[p] == k);
        }
    }
    assert forall|k: Seq<char>| #[trigger] a.contains_key(k) implies a[k] == b[k] by {
        let j = choose|j: int| 0 <= j < names_of(qs).len() && names_of(qs)[j] == k;
        lemma_map_of_at(qs, j);
        if j != p {
            assert(qs[j] == ps[j]);
            lemma_map_of_at(ps, j);
            if j < p {
                assert(lex_lt(names_of(ps)[j], names_of(ps)[p]));
            } else {
                assert(lex_lt(names_of(ps)[p], names_of(ps)[j]));
            }
            lemma_lex_irreflexive(k);
        } else {
            assert(qs[j] == kv);
        }
    }
    assert(a =~= b);
}

/// The entry views of a sequence of owned entries.
pub open spec fn entry_views<V>(es: Seq<(String, V)>) -> Seq<(Seq<char>, V)> {
    es.map_values(|e: (String, V)| (e.0@, e.1))
}

/// Inserting `n` where every name before is below it and the name after is
/// above it keeps the names sorted.
proof fn lemma_insert_sorted(ks: Seq<Seq<char>>, p: int, n: Seq<char>)
    requires
        0 <= p <= ks.len(),
        sorted_names(ks),
        forall|i: int| 0 <= i < p ==> lex_lt(#[trigger] ks[i], n),
        p < ks.len() ==> lex_lt(n, ks[p]),
    ensures
        sorted_names(ks.insert(p, n)),
{
    let r = ks.insert(p, n);
    assert forall|i: int, j: int| 0 <= i < j < r.len() implies lex_lt(
        #[trigger] r[i],
        #[trigger] r[j],
    ) by {
        if i < p {
            assert(r[i] == ks[i]);
            if j < p {
                assert(r[j] == ks[j]);
            } else if j == p {
                assert(r[j] == n);
            } else {
                assert(r[j] == ks[j - 1]);
            }
        } else if i == p {
            assert(r[i] == n);
            assert(r[j] == ks[j - 1]);
            if j - 1 > p {
                lemma_lex_transitive(n, ks[p], ks[j - 1]);
            }
        } else {
            assert(r[i] == ks[i - 1]);
            assert(r[j] == ks[j - 1]);
        }
    }
}

/// Keeping some entries of sorted entries keeps them sorted.
proof fn lemma_filter_sorted<V>(ps: Seq<(Seq<char>, V)>, pred: spec_fn((Seq<char>, V)) -> bool)
    requires
        sorted_names(names_of(ps)),
    ensures
        sorted_names(names_of(ps.filter(pred))),
    decreases ps.len(),
{
    reveal(Seq::filter);
    if ps.len() > 0 {
        let init = ps.drop_last();
        assert(names_of(init) =~= names_of(ps).drop_last());
        lemma_filter_sorted(init, pred);
        let f = init.filter(pred);
        if pred(ps.last()) {
            let r = f.push(ps.last());
            let ks = names_of(r);
            assert forall|i: int, j: int| 0 <= i < j < ks.len() implies lex_lt(
                #[trigger] ks[i],
                #[trigger] ks[j],
            ) by {
                if j == ks.len() - 1 {
                    assert(f.contains(f[i]));
                    init.lemma_filter_contains_rev(pred, f[i]);
                    let k = choose|k: int| 0 <= k < init.len() && init[k] == f[i];
                    assert(names_of(ps)[k] == ks[i]);
                    assert(names_of(ps)[ps.len() - 1] == ks[j]);
                } else {
                    assert(ks[i] == names_of(f)[i]);
                    assert(ks[j] == names_of(f)[j]);
                }
            }
        }
    }
}

/// A map from names to values. Its entries are always in strictly increasing
/// order of their names, so each name occurs at most once and walking the
/// map yields the names sorted.
#[derive(Debug)]
pub struct NameMap<V> {
    entries: Vec<(String, V)>,
}

impl<V> NameMap<V> {
    /// The entries, as (name, value) pairs, in increasing order of names.
    pub closed spec fn pairs(&self) -> Seq<(Seq<char>, V)> {
        entry_views(self.entries@)
    }

    /// The names, in increasing order.
    pub open spec fn keys(&self) -> Seq<Seq<char>> {
        names_of(self.pairs())
    }

    /// Whether `name` has an entry.
    pub open spec fn has(&self, name: Seq<char>) -> bool {
        self.keys().contains(name)
    }

    /// The map from names to values.
    pub open spec fn as_map(&self) -> Map<Seq<char>, V> {
        map_of(self.pairs())
    }

    #[verifier::type_invariant]
    spec fn well_formed(&self) -> bool {
        sorted_names(names_of(entry_views(self.entries@)))
    }

    /// An empty map.
    pub fn new() -> (res: Self)
        ensures
            res.pairs().len() == 0,
    {
        NameMap { entries: Vec::new() }
    }

    /// The number of entries.
    pub fn len(&self) -> (res: usize)
        ensures
            res == self.pairs().len(),
    {
        self.entries.len()
    }

    /// The entry at position `i`.
    pub fn entry(&self, i: usize) -> (res: (&String, &V))
        requires
            i < self.pairs().len(),
        ensures
            (res.0@, *res.1) == self.pairs()[i as int],
    {
        let e = &self.entries[i];
        (&e.0, &e.1)
    }

    /// The position of the first entry whose name is not below `name`.
    fn position(&self, name: &str) -> (res: usize)
        ensures
            res <= self.pairs().len(),
            forall|i: int| 0 <= i < res ==> lex_lt(#[trigger] self.keys()[i], name@),
            res < self.pairs().len() ==> !lex_lt(self.keys()[res as int], name@),
    {
        proof {
            use_type_invariant(self);
        }
        let mut i: usize = 0;
        while i < self.entries.len()
            invariant
                i <= self.entries.len(),
                self.pairs() == entry_views(self.entries@),
                sorted_names(self.keys()),
                forall|k: int| 0 <= k < i ==> lex_lt(#[trigger] self.keys()[k], name@),
            decreases self.entries.len() - i,
        {
            assert(self.keys()[i as int] == self.entries@[i as int].0@);
            if !text_less(self.entries[i].0.as_str(), name) {
                return i;
            }
            i = i + 1;
        }
        i
    }

    /// The value stored under `name`, if any.
    pub fn get(&self, name: &str) -> (res: Option<&V>)
        ensures
            match res {
                Some(v) => exists|i: int|
                    0 <= i < self.pairs().len() && #[trigger] self.pairs()[i] == (name@, *v),
                None => !self.has(name@),
            },
            res is Some <==> self.as_map().contains_key(name@),
            res matches Some(v) ==> self.as_map()[name@] == *v,
    {
        proof {
            use_type_invariant(self);
        }
        let p = self.position(name);
        if p < self.entries.len() && same_text(self.entries[p].0.as_str(), name) {
            assert(self.pairs()[p as int] == (name@, self.entries@[p as int].1));
            proof {
                lemma_map_of_at(self.pairs(), p as int);
            }
            Some(&self.entries[p].1)
        } else {
            proof {
                if self.has(name@) {
                    let j = choose|j: int| 0 <= j < self.keys().len() && self.keys()[j] == name@;
                    if j < p {
                        lemma_lex_irreflexive(name@);
                    } else if j > p {
                        lemma_lex_asymmetric(self.keys()[p as int], self.keys()[j]);
                    }
                }
            }
            None
        }
    }

    /// Whether `name` has an entry.
    pub fn contains_key(&self, name: &str) -> (res: bool)
        ensures
            res == self.has(name@),
    {
        let found = self.get(name);
        proof {
            if let Some(v) = found {
                let i = choose|i: int|
                    0 <= i < self.pairs().len() && #[trigger] self.pairs()[i] == (name@, *v);
                assert(self.keys()[i] == name@);
            }
        }
        found.is_some()
    }

    /// Stores `value` under `name`, replacing the value that was there.
    pub fn insert(&mut self, name: String, value: V)
        ensures
            old(self).has(name@) ==> exists|i: int|
                0 <= i < old(self).pairs().len() && old(self).keys()[i] == name@
                    && final(self).pairs() == old(self).pairs().update(i, (name@, value)),
            !old(self).has(name@) ==> exists|i: int|
                0 <= i <= old(self).pairs().len()
                    && final(self).pairs() == old(self).pairs().insert(i, (name@, value)),
            final(self).as_map() == old(self).as_map().insert(name@, value),
    {
        proof {
            use_type_invariant(&*self);
        }
        let p = self.position(name.as_str());
        let ghost old_pairs = self.pairs();
        let ghost nv = name@;
        assert(forall|i: int| 0 <= i < p ==> lex_lt(#[trigger] self.keys()[i], nv));
        assert(self.keys() == names_of(old_pairs));
        assert(forall|i: int| 0 <= i < p ==> lex_lt(#[trigger] names_of(old_pairs)[i], nv));
        let mut entries = Vec::new();
        std::mem::swap(&mut entries, &mut self.entries);
        assert(entry_views(entries@) == old_pairs);
        assert(sorted_names(names_of(old_pairs)));
        assert(p < entries.len() ==> names_of(old_pairs)[p as int] == entries@[p as int].0@);
        if p < entries.len() && same_text(entries[p].0.as_str(), name.as_str()) {
            entries.set(p, (name, value));
            proof {
                assert(entry_views(entries@) =~= old_pairs.update(p as int, (nv, value)));
                assert(names_of(entry_views(entries@)) =~= names_of(old_pairs));
                lemma_map_of_update(old_pairs, p as int, (nv, value));
            }
            self.entries = entries;
        } else {
            entries.insert(p, (name, value));
            proof {
                let new_pairs = entry_views(entries@);
                assert(new_pairs =~= old_pairs.insert(p as int, (nv, value)));
                let oks = names_of(old_pairs);
                assert(names_of(new_pairs) =~= oks.insert(p as int, nv));
                if p < oks.len() {
                    lemma_lex_total(nv, oks[p as int]);
                }
                lemma_insert_sorted(oks, p as int, nv);
                lemma_map_of_insert(old_pairs, p as int, (nv, value));
                if old_pairs.len() > 0 && names_of(old_pairs).contains(nv) {
                    let j = choose|j: int| 0 <= j < oks.len() && oks[j] == nv;
                    if j < p {
                        lemma_lex_irreflexive(nv);
                    } else if j > p {
                        lemma_lex_asymmetric(oks[p as int], oks[j]);
                    }
                }
            }
            self.entries = entries;
        }
    }

    /// The entries whose names pass the selection (`selected`), in order.
    pub fn select(self, skip: &Vec<String>, only: &Vec<String>) -> (res: Self)
        ensures
            res.pairs() == self.pairs().filter(selector(views(skip@), views(only@))),
    {
        proof {
            use_type_invariant(&self);
        }
        let ghost pred = selector::<V>(views(skip@), views(only@));
        let ghost all = self.pairs();
        let mut source = self.entries;
        let ghost src = source@;
        assert(entry_views(src) == all);
        let mut kept: Vec<(String, V)> = Vec::new();
        let n0 = source.len();
        let ghost n = src.len();
        assert(n == n0);
        let mut i: usize = 0;
        assert(src.skip(0) =~= src);
        while source.len() > 0
            invariant
                i <= n,
                n == src.len(),
                i + source.len() == n,
                n <= usize::MAX,
                pred == selector::<V>(views(skip@), views(only@)),
                entry_views(src) == all,
                source@ == src.skip(i as int),
                entry_views(kept@) == all.take(i as int).filter(pred),
            decreases source.len(),
        {
            let e = source.remove(0);
            assert(e == src[i as int]);
            assert(source@ =~= src.skip(i + 1));
            let ghost before = entry_views(kept@);
            let keep = !list_contains(skip, e.0.as_str()) && (only.len() == 0 || list_contains(
                only,
                e.0.as_str(),
            ));
            assert(all[i as int] == (e.0@, e.1));
            assert(keep == pred(all[i as int]));
            proof {
                assert(all.take(i + 1) =~= all.take(i as int).push(all[i as int]));
                all.take(i as int).lemma_filter_push(all[i as int], pred);
            }
            if keep {
                kept.push(e);
            }
            proof {
                if keep {
                    assert(entry_views(kept@) =~= before.push(all[i as int]));
                } else {
                    assert(entry_views(kept@) =~= before);
                }
            }
            i = i + 1;
        }
        assert(all.take(n as int) =~= all);
        proof {
            lemma_filter_sorted(all, pred);
        }
        NameMap { entries: kept }
    }

    /// The entries in increasing order of names, taking the map apart.
    pub fn into_entries(self) -> (res: Vec<(String, V)>)
        ensures
            entry_views(res@) == self.pairs(),
            sorted_names(names_of(entry_views(res@))),
    {
        proof {
            use_type_invariant(&self);
        }
        self.entries
    }

    /// The names in increasing order.
    pub fn names(&self) -> (res: Vec<String>)
        ensures
            views(res@) == self.keys(),
            sorted_names(views(res@)),
    {
        proof {
            use_type_invariant(self);
        }
        let mut res: Vec<String> = Vec::new();
        let mut i: usize = 0;
        while i < self.entries.len()
            invariant
                i <= self.entries.len(),
                self.pairs() == entry_views(self.entries@),
                views(res@) =~= self.keys().take(i as int),
            decreases self.entries.len() - i,
        {
            let ghost before = views(res@);
            let name = self.entries[i].0.clone();
            assert(name@ == self.keys()[i as int]);
            res.push(name);
            proof {
                assert(views(res@) =~= before.push(self.keys()[i as int]));
                assert(self.keys().take(i + 1) =~= self.keys().take(i as int).push(
                    self.keys()[i as int],
                ));
            }
            i = i + 1;
        }
        assert(self.keys().take(i as int) =~= self.keys());
        res
    }
}

} // verus!
