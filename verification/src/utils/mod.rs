use vstd::prelude::*;

pub mod errorx;
pub mod find;
pub mod keyed;
pub mod line;

verus! {

/// The names held by a list of strings.
pub open spec fn names(v: Seq<String>) -> Seq<Seq<char>> {
    v.map_values(|s: String| s@)
}

/// The names of `s` that are also in `alive`, in their order.
pub open spec fn keep_alive(s: Seq<Seq<char>>, alive: Seq<Seq<char>>) -> Seq<Seq<char>>
    decreases s.len(),
{
    if s.len() == 0 {
        s
    } else {
        let k = keep_alive(s.drop_last(), alive);
        if alive.contains(s.last()) {
            k.push(s.last())
        } else {
            k
        }
    }
}

/// The list with every name kept only where it first occurs.
pub open spec fn dedup(s: Seq<Seq<char>>) -> Seq<Seq<char>>
    decreases s.len(),
{
    if s.len() == 0 {
        s
    } else {
        let d = dedup(s.drop_last());
        if d.contains(s.last()) {
            d
        } else {
            d.push(s.last())
        }
    }
}

/// Whether `name` is in `list`.
pub fn contains_name(list: &Vec<String>, name: &String) -> (r: bool)
    ensures
        r == names(list@).contains(name@),
{
    let mut i: usize = 0;
    while i < list.len()
        invariant
            i <= list.len(),
            forall|j: int| 0 <= j < i ==> list@[j]@ != name@,
        decreases list.len() - i,
    {
        if list[i] == *name {
            assert(names(list@)[i as int] == name@);
            return true;
        }
        i += 1;
    }
    assert(!names(list@).contains(name@)) by {
        if names(list@).contains(name@) {
            let j = choose|j: int| 0 <= j < names(list@).len() && names(list@)[j] == name@;
            assert(list@[j]@ == name@);
        }
    }
    false
}

proof fn lemma_take_push<A>(s: Seq<A>, i: int)
    requires
        0 <= i < s.len(),
    ensures
        s.take(i + 1) == s.take(i).push(s[i]),
        s.take(i + 1).drop_last() == s.take(i),
        s.take(i + 1).last() == s[i],
{
    assert(s.take(i + 1) =~= s.take(i).push(s[i]));
}

/// How many times `c` occurs in `s`.
pub open spec fn occurrences(s: Seq<Seq<char>>, c: Seq<char>) -> nat
    decreases s.len(),
{
    if s.len() == 0 {
        0
    } else {
        occurrences(s.drop_last(), c) + if s.last() == c { 1nat } else { 0nat }
    }
}

/// A name occurs in a list exactly when it occurs there at least once.
pub proof fn lemma_occurrences_contains(s: Seq<Seq<char>>, c: Seq<char>)
    ensures
        (occurrences(s, c) > 0) == s.contains(c),
    decreases s.len(),
{
    if s.len() > 0 {
        lemma_occurrences_contains(s.drop_last(), c);
        assert(s == s.drop_last().push(s.last()));
        lemma_push_contains(s.drop_last(), s.last(), c);
    }
}

/// The list with every occurrence of `c` taken out.
pub open spec fn without(s: Seq<Seq<char>>, c: Seq<char>) -> Seq<Seq<char>>
    decreases s.len(),
{
    if s.len() == 0 {
        s
    } else {
        let w = without(s.drop_last(), c);
        if s.last() == c {
            w
        } else {
            w.push(s.last())
        }
    }
}

/// `c` is not in a list it was taken out of, and every other name stays.
pub proof fn lemma_without_contains(s: Seq<Seq<char>>, c: Seq<char>, x: Seq<char>)
    ensures
        without(s, c).contains(x) == (s.contains(x) && x != c),
    decreases s.len(),
{
    if s.len() > 0 {
        lemma_without_contains(s.drop_last(), c, x);
        assert(s == s.drop_last().push(s.last()));
        lemma_push_contains(s.drop_last(), s.last(), x);
        lemma_push_contains(without(s.drop_last(), c), s.last(), x);
    }
}

/// Only living creeps, and only creeps of the list, are kept.
pub proof fn lemma_keep_alive_contains(s: Seq<Seq<char>>, alive: Seq<Seq<char>>, x: Seq<char>)
    ensures
        keep_alive(s, alive).contains(x) == (s.contains(x) && alive.contains(x)),
    decreases s.len(),
{
    if s.len() > 0 {
        lemma_keep_alive_contains(s.drop_last(), alive, x);
        assert(s == s.drop_last().push(s.last()));
        lemma_push_contains(s.drop_last(), s.last(), x);
        lemma_push_contains(keep_alive(s.drop_last(), alive), s.last(), x);
    }
}

/// A copy of a list of names.
pub fn clone_names(v: &Vec<String>) -> (r: Vec<String>)
    ensures
        names(r@) == names(v@),
{
    let r = v.clone();
    assert(r@ =~= v@);
    r
}

/// Takes every occurrence of `c` out of the list.
pub fn remove_name(v: &mut Vec<String>, c: &String)
    ensures
        names(final(v)@) == without(names(old(v)@), c@),
{
    let ghost s = names(v@);
    let mut kept: Vec<String> = Vec::new();
    let mut i: usize = 0;
    while i < v.len()
        invariant
            i <= v.len(),
            s == names(v@),
            names(kept@) == without(s.take(i as int), c@),
        decreases v.len() - i,
    {
        proof {
            lemma_take_push(s, i as int);
        }
        assert(s[i as int] == v@[i as int]@);
        if v[i] != *c {
            kept.push(v[i].clone());
            assert(names(kept@) =~= without(s.take(i as int), c@).push(s[i as int]));
        }
        i += 1;
    }
    assert(s.take(v.len() as int) == s);
    *v = kept;
}

/// Keeps only the creeps whose names are among the living ones.
pub fn remove_expire_screep(param: &mut Vec<String>, alive: &Vec<String>)
    ensures
        names(final(param)@) == keep_alive(names(old(param)@), names(alive@)),
{
    let ghost s = names(param@);
    let mut kept: Vec<String> = Vec::new();
    let mut i: usize = 0;
    while i < param.len()
        invariant
            i <= param.len(),
            s == names(param@),
            names(kept@) == keep_alive(s.take(i as int), names(alive@)),
        decreases param.len() - i,
    {
        proof {
            lemma_take_push(s, i as int);
        }
        assert(s[i as int] == param@[i as int]@);
        if contains_name(alive, &param[i]) {
            kept.push(param[i].clone());
            assert(names(kept@) =~= keep_alive(s.take(i as int), names(alive@)).push(s[i as int]));
        } else {
            assert(keep_alive(s.take(i as int + 1), names(alive@)) == keep_alive(
                s.take(i as int),
                names(alive@),
            ));
        }
        i += 1;
    }
    assert(s.take(param.len() as int) == s);
    *param = kept;
}

/// Drops every repeated name, keeping each where it first occurs.
pub fn remove_repeat_screep(param: &mut Vec<String>)
    ensures
        names(final(param)@) == dedup(names(old(param)@)),
{
    let ghost s = names(param@);
    let mut kept: Vec<String> = Vec::new();
    let mut i: usize = 0;
    while i < param.len()
        invariant
            i <= param.len(),
            s == names(param@),
            names(kept@) == dedup(s.take(i as int)),
        decreases param.len() - i,
    {
        proof {
            lemma_take_push(s, i as int);
        }
        assert(s[i as int] == param@[i as int]@);
        if !contains_name(&kept, &param[i]) {
            kept.push(param[i].clone());
            assert(names(kept@) =~= dedup(s.take(i as int)).push(s[i as int]));
        }
        i += 1;
    }
    assert(s.take(param.len() as int) == s);
    *param = kept;
}

pub proof fn lemma_push_contains(p: Seq<Seq<char>>, l: Seq<char>, x: Seq<char>)
    ensures
        p.push(l).contains(x) == (p.contains(x) || x == l),
{
    if p.contains(x) {
        let j = choose|j: int| 0 <= j < p.len() && p[j] == x;
        assert(p.push(l)[j] == x);
    }
    if x == l {
        assert(p.push(l)[p.len() as int] == x);
    }
    if p.push(l).contains(x) && x != l {
        let j = choose|j: int| 0 <= j < p.push(l).len() && p.push(l)[j] == x;
        assert(p[j] == x);
    }
}

/// A name survives deduplication exactly when it was there.
pub proof fn lemma_dedup_contains(s: Seq<Seq<char>>, x: Seq<char>)
    ensures
        dedup(s).contains(x) == s.contains(x),
    decreases s.len(),
{
    if s.len() > 0 {
        let p = s.drop_last();
        let l = s.last();
        let d = dedup(p);
        lemma_dedup_contains(p, x);
        lemma_dedup_contains(p, l);
        assert(s == p.push(l));
        lemma_push_contains(p, l, x);
        lemma_push_contains(d, l, x);
    }
}

/// After deduplication no name occurs twice.
pub proof fn lemma_dedup_no_duplicates(s: Seq<Seq<char>>)
    ensures
        dedup(s).no_duplicates(),
    decreases s.len(),
{
    if s.len() > 0 {
        lemma_dedup_no_duplicates(s.drop_last());
        let d = dedup(s.drop_last());
        if !d.contains(s.last()) {
            assert forall|i: int, j: int|
                0 <= i < d.push(s.last()).len() && 0 <= j < d.push(s.last()).len() && i != j
                    implies d.push(s.last())[i] != d.push(s.last())[j] by {
                if i == d.len() {
                    assert(d[j] != s.last());
                } else if j == d.len() {
                    assert(d[i] != s.last());
                }
            }
        }
    }
}

/// A list without repeated names is left as it is.
pub proof fn lemma_dedup_unique_is_identity(s: Seq<Seq<char>>)
    requires
        s.no_duplicates(),
    ensures
        dedup(s) == s,
    decreases s.len(),
{
    if s.len() > 0 {
        let p = s.drop_last();
        assert(p.no_duplicates()) by {
            assert forall|i: int, j: int| 0 <= i < p.len() && 0 <= j < p.len() && i != j implies p[i]
                != p[j] by {
                assert(s[i] == p[i] && s[j] == p[j]);
            }
        }
        lemma_dedup_unique_is_identity(p);
        assert(!p.contains(s.last())) by {
            if p.contains(s.last()) {
                let j = choose|j: int| 0 <= j < p.len() && p[j] == s.last();
                assert(s[j] == s[s.len() - 1]);
            }
        }
        assert(p.push(s.last()) =~= s);
    }
}

/// Removing repeated names twice is the same as once.
pub proof fn lemma_dedup_idempotent(s: Seq<Seq<char>>)
    ensures
        dedup(dedup(s)) == dedup(s),
{
    lemma_dedup_no_duplicates(s);
    lemma_dedup_unique_is_identity(dedup(s));
}

} // verus!
