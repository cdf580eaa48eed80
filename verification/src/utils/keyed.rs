//! Lists whose entries are told apart by a string key; each key occurs at
//! most once, so such a list is a map from keys to entries.
use vstd::prelude::*;

verus! {

/// An entry of a keyed list.
pub trait Keyed {
    spec fn key(&self) -> Seq<char>;

    fn key_ref(&self) -> (r: &String)
        ensures
            r@ == self.key(),
    ;
}

/// Some entry has key `k`.
pub open spec fn has_key<T: Keyed>(s: Seq<T>, k: Seq<char>) -> bool {
    exists|i: int| 0 <= i < s.len() && #[trigger] s[i].key() == k
}

/// No key occurs twice.
pub open spec fn keys_unique<T: Keyed>(s: Seq<T>) -> bool {
    forall|i: int, j: int|
        0 <= i < s.len() && 0 <= j < s.len() && i != j ==> #[trigger] s[i].key() != #[trigger] s[j].key()
}

/// The position of the entry with key `k`, when there is one.
pub open spec fn index_of<T: Keyed>(s: Seq<T>, k: Seq<char>) -> int {
    choose|i: int| 0 <= i < s.len() && #[trigger] s[i].key() == k
}

/// The entry with key `k`.
pub open spec fn lookup<T: Keyed>(s: Seq<T>, k: Seq<char>) -> Option<T> {
    if has_key(s, k) {
        Some(s[index_of(s, k)])
    } else {
        None
    }
}

/// The list after `x` has been stored under its key: it replaces the entry
/// with that key, or is added at the end.
pub open spec fn upsert<T: Keyed>(s: Seq<T>, x: T) -> Seq<T> {
    if has_key(s, x.key()) {
        s.update(index_of(s, x.key()), x)
    } else {
        s.push(x)
    }
}

/// The list after each of `xs` has been stored in turn.
pub open spec fn upsert_all<T: Keyed>(s: Seq<T>, xs: Seq<T>) -> Seq<T>
    decreases xs.len(),
{
    if xs.len() == 0 {
        s
    } else {
        upsert(upsert_all(s, xs.drop_last()), xs.last())
    }
}

/// In a list with unique keys, the entry at `i` is the one with its key.
pub proof fn lemma_index_of_unique<T: Keyed>(s: Seq<T>, i: int)
    requires
        keys_unique(s),
        0 <= i < s.len(),
    ensures
        has_key(s, s[i].key()),
        index_of(s, s[i].key()) == i,
{
    assert(s[i].key() == s[i].key());
    let j = index_of(s, s[i].key());
    if j != i {
        assert(s[j].key() == s[i].key());
    }
}

/// Storing an entry keeps keys unique.
pub proof fn lemma_upsert_unique<T: Keyed>(s: Seq<T>, x: T)
    requires
        keys_unique(s),
    ensures
        keys_unique(upsert(s, x)),
        has_key(upsert(s, x), x.key()),
{
    let u = upsert(s, x);
    if has_key(s, x.key()) {
        let k = index_of(s, x.key());
        assert(u[k].key() == x.key());
        assert forall|i: int, j: int|
            0 <= i < u.len() && 0 <= j < u.len() && i != j implies #[trigger] u[i].key()
            != #[trigger] u[j].key() by {
            if i == k {
                assert(s[j].key() != s[k].key());
            } else if j == k {
                assert(s[i].key() != s[k].key());
            } else {
                assert(s[i].key() != s[j].key());
            }
        }
    } else {
        assert(u[s.len() as int].key() == x.key());
        assert forall|i: int, j: int|
            0 <= i < u.len() && 0 <= j < u.len() && i != j implies #[trigger] u[i].key()
            != #[trigger] u[j].key() by {
            if i == s.len() {
                assert(s[j].key() != x.key());
            } else if j == s.len() {
                assert(s[i].key() != x.key());
            } else {
                assert(s[i].key() != s[j].key());
            }
        }
    }
}

/// After storing `x`, looking up its key gives `x`.
pub proof fn lemma_upsert_lookup<T: Keyed>(s: Seq<T>, x: T)
    requires
        keys_unique(s),
    ensures
        lookup(upsert(s, x), x.key()) == Some(x),
{
    lemma_upsert_unique(s, x);
    let u = upsert(s, x);
    let k = if has_key(s, x.key()) { index_of(s, x.key()) } else { s.len() as int };
    assert(u[k] == x);
    lemma_index_of_unique(u, k);
}

/// The map a keyed list stands for.
pub open spec fn as_map<T: Keyed>(s: Seq<T>) -> Map<Seq<char>, T> {
    Map::new(|k: Seq<char>| has_key(s, k), |k: Seq<char>| s[index_of(s, k)])
}

/// The map a keyed list stands for, each entry taken by its view.
pub open spec fn view_map<T: Keyed + View>(s: Seq<T>) -> Map<Seq<char>, T::V> {
    Map::new(|k: Seq<char>| has_key(s, k), |k: Seq<char>| s[index_of(s, k)]@)
}

/// The map after each of `xs` has been stored in turn, by view.
pub open spec fn insert_views<T: Keyed + View>(m: Map<Seq<char>, T::V>, xs: Seq<T>) -> Map<
    Seq<char>,
    T::V,
>
    decreases xs.len(),
{
    if xs.len() == 0 {
        m
    } else {
        insert_views(m, xs.drop_last()).insert(xs.last().key(), xs.last()@)
    }
}

/// Reading a key after storing a list of records gives the last record
/// stored under that key.
pub proof fn lemma_read_after_store<T: Keyed + View>(m: Map<Seq<char>, T::V>, xs: Seq<T>, k: Seq<char>, i: int)
    requires
        0 <= i < xs.len(),
        xs[i].key() == k,
        forall|j: int| i < j < xs.len() ==> #[trigger] xs[j].key() != k,
    ensures
        insert_views(m, xs).contains_key(k),
        insert_views(m, xs)[k] == xs[i]@,
    decreases xs.len(),
{
    if i < xs.len() - 1 {
        let ys = xs.drop_last();
        assert forall|j: int| i < j < ys.len() implies #[trigger] ys[j].key() != k by {
            assert(ys[j] == xs[j]);
        }
        assert(xs.last().key() != k) by {
            assert(xs[xs.len() - 1].key() != k);
        }
        lemma_read_after_store(m, ys, k, i);
    }
}

/// Reading a key that none of the stored records has gives what was there
/// before.
pub proof fn lemma_read_unstored<T: Keyed + View>(m: Map<Seq<char>, T::V>, xs: Seq<T>, k: Seq<char>)
    requires
        forall|j: int| 0 <= j < xs.len() ==> #[trigger] xs[j].key() != k,
    ensures
        insert_views(m, xs).contains_key(k) == m.contains_key(k),
        insert_views(m, xs)[k] == m[k],
    decreases xs.len(),
{
    if xs.len() > 0 {
        let ys = xs.drop_last();
        assert forall|j: int| 0 <= j < ys.len() implies #[trigger] ys[j].key() != k by {
            assert(ys[j] == xs[j]);
        }
        assert(xs.last().key() != k) by {
            assert(xs[xs.len() - 1].key() != k);
        }
        lemma_read_unstored(m, ys, k);
    }
}

/// Two lists with the same keys position by position have the same keys,
/// at the same positions.
pub proof fn lemma_same_keys<T: Keyed, U: Keyed>(s: Seq<T>, t: Seq<U>)
    requires
        keys_unique(s),
        s.len() == t.len(),
        forall|i: int| 0 <= i < s.len() ==> #[trigger] t[i].key() == s[i].key(),
    ensures
        keys_unique(t),
        forall|k: Seq<char>| #[trigger] has_key(t, k) == has_key(s, k),
        forall|k: Seq<char>| has_key(s, k) ==> #[trigger] index_of(t, k) == index_of(s, k),
{
    assert forall|i: int, j: int|
        0 <= i < t.len() && 0 <= j < t.len() && i != j implies #[trigger] t[i].key()
        != #[trigger] t[j].key() by {
        assert(s[i].key() != s[j].key());
    }
    assert forall|k: Seq<char>| #[trigger] has_key(t, k) == has_key(s, k) by {
        if has_key(s, k) {
            let i = index_of(s, k);
            assert(t[i].key() == k);
        }
        if has_key(t, k) {
            let i = index_of(t, k);
            assert(s[i].key() == k);
        }
    }
    assert forall|k: Seq<char>| has_key(s, k) implies #[trigger] index_of(t, k) == index_of(s, k) by {
        let i = index_of(s, k);
        assert(t[i].key() == k);
        lemma_index_of_unique(t, i);
    }
}

/// Changing each entry in place without touching its key changes the map
/// entry by entry.
pub proof fn lemma_view_map_pointwise<T: Keyed + View>(
    s: Seq<T>,
    t: Seq<T>,
    f: spec_fn(Seq<char>, T::V) -> T::V,
)
    requires
        keys_unique(s),
        s.len() == t.len(),
        forall|i: int| 0 <= i < s.len() ==> #[trigger] t[i].key() == s[i].key(),
        forall|i: int| 0 <= i < s.len() ==> #[trigger] t[i]@ == f(s[i].key(), s[i]@),
    ensures
        keys_unique(t),
        view_map(t) == Map::new(
            |k: Seq<char>| view_map(s).contains_key(k),
            |k: Seq<char>| f(k, view_map(s)[k]),
        ),
{
    lemma_same_keys(s, t);
    let m = Map::new(
        |k: Seq<char>| view_map(s).contains_key(k),
        |k: Seq<char>| f(k, view_map(s)[k]),
    );
    assert forall|k: Seq<char>| #[trigger] view_map(t).contains_key(k) implies view_map(t)[k] == m[k] by {
        let i = index_of(s, k);
        assert(s[i].key() == k);
    }
    assert(view_map(t) =~= m);
}

/// Storing an entry stores its view in the map.
pub proof fn lemma_view_map_upsert<T: Keyed + View>(s: Seq<T>, x: T)
    requires
        keys_unique(s),
    ensures
        view_map(upsert(s, x)) == view_map(s).insert(x.key(), x@),
        as_map(upsert(s, x)) == as_map(s).insert(x.key(), x),
{
    lemma_upsert_unique(s, x);
    let u = upsert(s, x);
    let m = view_map(s).insert(x.key(), x@);
    assert forall|k: Seq<char>| #[trigger] has_key(u, k) == m.contains_key(k) by {
        if has_key(s, k) {
            let i = index_of(s, k);
            assert(u[i].key() == s[i].key() || u[i] == x);
            if u[i].key() == k {
            } else {
                assert(u[i] == x);
                assert(k == x.key());
                assert(has_key(u, x.key()));
            }
        }
        if has_key(u, k) {
            let i = index_of(u, k);
            if u[i] != x {
                assert(s[i] == u[i]);
                assert(has_key(s, k));
            }
        }
    }
    assert forall|k: Seq<char>| #[trigger] has_key(u, k) implies u[index_of(u, k)]@ == m[k]
        && u[index_of(u, k)] == as_map(s).insert(x.key(), x)[k] by {
        let i = index_of(u, k);
        if k == x.key() {
            let j = if has_key(s, x.key()) { index_of(s, x.key()) } else { s.len() as int };
            assert(u[j] == x);
            lemma_index_of_unique(u, j);
        } else {
            assert(u[i] != x);
            assert(s[i] == u[i]);
            lemma_index_of_unique(s, i);
        }
    }
    assert(view_map(u) =~= m);
    assert(as_map(u) =~= as_map(s).insert(x.key(), x));
}

/// Storing entries one by one stores their views one by one.
pub proof fn lemma_view_map_upsert_all<T: Keyed + View>(s: Seq<T>, xs: Seq<T>)
    requires
        keys_unique(s),
    ensures
        keys_unique(upsert_all(s, xs)),
        view_map(upsert_all(s, xs)) == insert_views(view_map(s), xs),
    decreases xs.len(),
{
    if xs.len() > 0 {
        lemma_view_map_upsert_all(s, xs.drop_last());
        lemma_upsert_unique(upsert_all(s, xs.drop_last()), xs.last());
        lemma_view_map_upsert(upsert_all(s, xs.drop_last()), xs.last());
    }
}

/// Every entry of the list after storing `xs` was in the list or in `xs`,
/// so a property of all of those holds of all of these.
pub proof fn lemma_upsert_all_keeps<T: Keyed>(s: Seq<T>, xs: Seq<T>, p: spec_fn(T) -> bool)
    requires
        forall|i: int| 0 <= i < s.len() ==> p(#[trigger] s[i]),
        forall|i: int| 0 <= i < xs.len() ==> p(#[trigger] xs[i]),
    ensures
        forall|i: int| 0 <= i < upsert_all(s, xs).len() ==> p(#[trigger] upsert_all(s, xs)[i]),
    decreases xs.len(),
{
    if xs.len() > 0 {
        let ys = xs.drop_last();
        assert forall|i: int| 0 <= i < ys.len() implies p(#[trigger] ys[i]) by {
            assert(ys[i] == xs[i]);
        }
        lemma_upsert_all_keeps(s, ys, p);
        let t = upsert_all(s, ys);
        let x = xs[xs.len() - 1];
        assert(p(x));
        let u = upsert(t, x);
        assert forall|i: int| 0 <= i < u.len() implies p(#[trigger] u[i]) by {
            if has_key(t, x.key()) {
                if i != index_of(t, x.key()) {
                    assert(u[i] == t[i]);
                }
            } else if i < t.len() {
                assert(u[i] == t[i]);
            }
        }
    }
}

/// The entries whose keys pass `keep`, in order.
pub open spec fn filter_keys<T: Keyed>(s: Seq<T>, keep: spec_fn(Seq<char>) -> bool) -> Seq<T>
    decreases s.len(),
{
    if s.len() == 0 {
        s
    } else {
        let f = filter_keys(s.drop_last(), keep);
        if keep(s.last().key()) {
            f.push(s.last())
        } else {
            f
        }
    }
}

/// Keeping the entries whose keys pass `keep` keeps just those keys of the
/// map.
pub proof fn lemma_filter_keys<T: Keyed + View>(s: Seq<T>, keep: spec_fn(Seq<char>) -> bool)
    requires
        keys_unique(s),
    ensures
        keys_unique(filter_keys(s, keep)),
        forall|k: Seq<char>| #[trigger] has_key(filter_keys(s, keep), k) ==> has_key(s, k),
        view_map(filter_keys(s, keep)) == Map::new(
            |k: Seq<char>| view_map(s).contains_key(k) && keep(k),
            |k: Seq<char>| view_map(s)[k],
        ),
    decreases s.len(),
{
    let m = Map::new(
        |k: Seq<char>| view_map(s).contains_key(k) && keep(k),
        |k: Seq<char>| view_map(s)[k],
    );
    if s.len() == 0 {
        assert(view_map(filter_keys(s, keep)) =~= m);
    } else {
        let p = s.drop_last();
        let x = s.last();
        assert(keys_unique(p)) by {
            assert forall|i: int, j: int|
                0 <= i < p.len() && 0 <= j < p.len() && i != j implies #[trigger] p[i].key()
                != #[trigger] p[j].key() by {
                assert(s[i].key() != s[j].key());
            }
        }
        lemma_filter_keys(p, keep);
        assert(!has_key(p, x.key())) by {
            if has_key(p, x.key()) {
                let i = index_of(p, x.key());
                assert(s[i].key() == s[s.len() - 1].key());
            }
        }
        assert(s == p.push(x));
        assert(upsert(p, x) == s);
        lemma_view_map_upsert(p, x);
        let f = filter_keys(p, keep);
        if keep(x.key()) {
            assert(!has_key(f, x.key()));
            assert(upsert(f, x) == f.push(x));
            lemma_upsert_unique(f, x);
            lemma_view_map_upsert(f, x);
            assert forall|k: Seq<char>| #[trigger] has_key(f.push(x), k) implies has_key(s, k) by {
                if k == x.key() {
                    assert(s[s.len() - 1].key() == k);
                } else {
                    assert(has_key(upsert(f, x), k) == view_map(f).insert(x.key(), x@).contains_key(k));
                    assert(has_key(f, k));
                    let i = index_of(p, k);
                    assert(s[i].key() == k);
                }
            }
        } else {
            assert forall|k: Seq<char>| #[trigger] has_key(f, k) implies has_key(s, k) by {
                let i = index_of(p, k);
                assert(s[i].key() == k);
            }
        }
        assert(view_map(filter_keys(s, keep)) =~= m);
    }
}

/// The position of the entry with key `k`, if any.
pub fn find_key<T: Keyed>(v: &Vec<T>, k: &String) -> (r: Option<usize>)
    requires
        keys_unique(v@),
    ensures
        r is None <==> !has_key(v@, k@),
        r matches Some(i) ==> i < v@.len() && v@[i as int].key() == k@ && index_of(v@, k@)
            == i,
{
    let mut i: usize = 0;
    while i < v.len()
        invariant
            i <= v.len(),
            keys_unique(v@),
            forall|j: int| 0 <= j < i ==> #[trigger] v@[j].key() != k@,
        decreases v.len() - i,
    {
        if *v[i].key_ref() == *k {
            proof {
                lemma_index_of_unique(v@, i as int);
            }
            return Some(i);
        }
        i += 1;
    }
    None
}

/// Stores `x` under its key.
pub fn upsert_entry<T: Keyed>(v: &mut Vec<T>, x: T)
    requires
        keys_unique(old(v)@),
    ensures
        final(v)@ == upsert(old(v)@, x),
        keys_unique(final(v)@),
{
    proof {
        lemma_upsert_unique(v@, x);
    }
    match find_key(v, x.key_ref()) {
        Some(i) => {
            v.set(i, x);
        },
        None => {
            v.push(x);
        },
    }
}

/// Stores each of `xs` in turn.
pub fn upsert_entries<T: Keyed>(v: &mut Vec<T>, xs: Vec<T>)
    requires
        keys_unique(old(v)@),
    ensures
        final(v)@ == upsert_all(old(v)@, xs@),
        keys_unique(final(v)@),
{
    let ghost all = xs@;
    let ghost start = v@;
    let mut xs = xs;
    assert(all.len() == xs.len());
    let mut done: usize = 0;
    while xs.len() > 0
        invariant
            keys_unique(v@),
            done <= all.len() <= usize::MAX,
            xs@ == all.skip(done as int),
            v@ == upsert_all(start, all.take(done as int)),
        decreases xs.len(),
    {
        assert(done < all.len());
        let x = xs.remove(0);
        assert(x == all[done as int]);
        assert(all.take(done as int + 1).drop_last() == all.take(done as int));
        assert(all.take(done as int + 1).last() == x);
        upsert_entry(v, x);
        assert(xs@ =~= all.skip(done as int + 1));
        done += 1;
    }
    assert(all.take(all.len() as int) == all);
}

} // verus!
