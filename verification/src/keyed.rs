use vstd::prelude::*;

verus! {

/// Values identified by a snowflake id.
pub trait Keyed {
    spec fn key_spec(&self) -> u64;

    fn key(&self) -> (k: u64)
        ensures
            k == self.key_spec(),
    ;
}

/// The ids of a sequence of keyed values, in order.
pub open spec fn keys_of<T: Keyed>(s: Seq<T>) -> Seq<u64> {
    s.map_values(|x: T| x.key_spec())
}

/// The values of `s` with every value whose id already occurred earlier in `s` left out;
/// the first value with each id keeps its place.
pub open spec fn dedup_by_key<T: Keyed>(s: Seq<T>) -> Seq<T>
    decreases s.len(),
{
    if s.len() == 0 {
        Seq::empty()
    } else {
        let prev = dedup_by_key(s.drop_last());
        if keys_of(s.drop_last()).contains(s.last().key_spec()) {
            prev
        } else {
            prev.push(s.last())
        }
    }
}

/// No two values of the sequence share an id.
pub open spec fn unique_keys<T: Keyed>(s: Seq<T>) -> bool {
    forall|i: int, j: int| 0 <= i < s.len() && 0 <= j < s.len() && i != j ==> s[i].key_spec()
        != s[j].key_spec()
}

/// A pushed sequence holds what it held before and the pushed value.
pub proof fn lemma_push_contains<A>(s: Seq<A>, x: A, y: A)
    ensures
        s.push(x).contains(y) <==> (s.contains(y) || x == y),
{
    if s.contains(y) {
        let k = choose|k: int| 0 <= k < s.len() && s[k] == y;
        assert(s.push(x)[k] == y);
    }
    if x == y {
        assert(s.push(x)[s.len() as int] == y);
    }
    if s.push(x).contains(y) {
        let k = choose|k: int| 0 <= k < s.push(x).len() && s.push(x)[k] == y;
        if k < s.len() {
            assert(s[k] == y);
        }
    }
}

/// Deduplication keeps exactly the ids of its input, each once, and only values of its input.
pub proof fn lemma_dedup_by_key<T: Keyed>(s: Seq<T>)
    ensures
        unique_keys(dedup_by_key(s)),
        forall|k: u64| keys_of(dedup_by_key(s)).contains(k) <==> keys_of(s).contains(k),
        forall|i: int| 0 <= i < dedup_by_key(s).len() ==> s.contains(#[trigger] dedup_by_key(s)[i]),
    decreases s.len(),
{
    if s.len() > 0 {
        let init = s.drop_last();
        let x = s.last();
        lemma_dedup_by_key(init);
        let prev = dedup_by_key(init);
        assert(keys_of(s) =~= keys_of(init).push(x.key_spec()));
        assert forall|k: u64| keys_of(s).contains(k) <==> (keys_of(init).contains(k) || k
            == x.key_spec()) by {
            lemma_push_contains(keys_of(init), x.key_spec(), k);
        }
        if !keys_of(init).contains(x.key_spec()) {
            let d = prev.push(x);
            assert(keys_of(d) =~= keys_of(prev).push(x.key_spec()));
            assert forall|k: u64| keys_of(d).contains(k) <==> (keys_of(prev).contains(k) || k
                == x.key_spec()) by {
                lemma_push_contains(keys_of(prev), x.key_spec(), k);
            }
            assert forall|i: int, j: int|
                0 <= i < d.len() && 0 <= j < d.len() && i != j implies d[i].key_spec()
                != d[j].key_spec() by {
                if i == d.len() - 1 {
                    assert(keys_of(prev)[j] == prev[j].key_spec());
                } else if j == d.len() - 1 {
                    assert(keys_of(prev)[i] == prev[i].key_spec());
                }
            }
        }
        assert forall|i: int| 0 <= i < dedup_by_key(s).len() implies s.contains(
            #[trigger] dedup_by_key(s)[i],
        ) by {
            if i < prev.len() {
                let y = prev[i];
                assert(init.contains(y));
                let k = choose|k: int| 0 <= k < init.len() && init[k] == y;
                assert(s[k] == y);
            } else {
                assert(s[s.len() - 1] == x);
            }
        }
    }
}

/// Whether a vector of ids holds `id`.
pub fn ids_contain(ids: &Vec<u64>, id: u64) -> (found: bool)
    ensures
        found == ids@.contains(id),
{
    let mut i: usize = 0;
    while i < ids.len()
        invariant
            i <= ids@.len(),
            forall|j: int| 0 <= j < i ==> ids@[j] != id,
        decreases ids@.len() - i,
    {
        if ids[i] == id {
            assert(ids@[i as int] == id);
            return true;
        }
        i = i + 1;
    }
    false
}

/// Moves `items` onto the end of `out`, skipping every item whose id already occurred in
/// `before` (which `out` deduplicates) or earlier in `items`.
pub(crate) fn append_unseen<T: Keyed>(
    out: &mut Vec<T>,
    seen: &mut Vec<u64>,
    items: Vec<T>,
    Ghost(before): Ghost<Seq<T>>,
)
    requires
        old(out)@ == dedup_by_key(before),
        old(seen)@ == keys_of(old(out)@),
    ensures
        final(out)@ == dedup_by_key(before + items@),
        final(seen)@ == keys_of(final(out)@),
{
    let ghost orig = items@;
    assert(before + orig.take(0) =~= before);
    for item in it: items.into_iter()
        invariant
            it.seq() == orig,
            out@ == dedup_by_key(before + orig.take(it.index() as int)),
            seen@ == keys_of(out@),
    {
        let ghost i = it.index() as int;
        let ghost prefix = before + orig.take(i);
        assert((before + orig.take(i + 1)).drop_last() =~= prefix);
        assert((before + orig.take(i + 1)).last() == item);
        proof {
            lemma_dedup_by_key(prefix);
        }
        let k = item.key();
        if !ids_contain(seen, k) {
            assert(!keys_of(prefix).contains(k));
            let ghost out_before = out@;
            out.push(item);
            seen.push(k);
            assert(keys_of(out@) =~= keys_of(out_before).push(k));
        } else {
            assert(keys_of(prefix).contains(k));
        }
    }
    assert(orig.take(orig.len() as int) =~= orig);
}

/// The first value of `s` with id `k`, if any.
pub open spec fn lookup<T: Keyed>(s: Seq<T>, k: u64) -> Option<T>
    decreases s.len(),
{
    if s.len() == 0 {
        None
    } else if s[0].key_spec() == k {
        Some(s[0])
    } else {
        lookup(s.drop_first(), k)
    }
}

/// The position of the first value of `s` with id `k`, if any.
pub open spec fn lookup_index<T: Keyed>(s: Seq<T>, k: u64) -> Option<int>
    decreases s.len(),
{
    if s.len() == 0 {
        None
    } else if s[0].key_spec() == k {
        Some(0)
    } else {
        match lookup_index(s.drop_first(), k) {
            Some(i) => Some(i + 1),
            None => None,
        }
    }
}

/// The position found by `lookup_index` holds the value found by `lookup`, and it is the
/// first value with that id.
pub proof fn lemma_lookup_index<T: Keyed>(s: Seq<T>, k: u64)
    ensures
        match lookup_index(s, k) {
            Some(i) => 0 <= i < s.len() && lookup(s, k) == Some(s[i]) && s[i].key_spec() == k
                && forall|j: int| 0 <= j < i ==> s[j].key_spec() != k,
            None => lookup(s, k) is None && forall|j: int| 0 <= j < s.len() ==> s[j].key_spec()
                != k,
        },
    decreases s.len(),
{
    if s.len() > 0 && s[0].key_spec() != k {
        lemma_lookup_index(s.drop_first(), k);
        assert forall|j: int| 1 <= j < s.len() implies s[j] == s.drop_first()[j - 1] by {}
    }
}

/// A value with id `k` makes the lookup succeed.
pub proof fn lemma_lookup_some<T: Keyed>(s: Seq<T>, k: u64, j: int)
    requires
        0 <= j < s.len(),
        s[j].key_spec() == k,
    ensures
        lookup(s, k) is Some,
{
    lemma_lookup_index(s, k);
}

/// Finds the position of the first value with id `k`.
pub fn find_index<T: Keyed>(v: &Vec<T>, k: u64) -> (r: Option<usize>)
    ensures
        match r {
            Some(i) => i < v@.len() && lookup_index(v@, k) == Some(i as int) && lookup(v@, k) == Some(
                v@[i as int],
            ),
            None => lookup_index(v@, k) is None && lookup(v@, k) is None,
        },
{
    let mut i: usize = 0;
    proof {
        lemma_lookup_index(v@, k);
    }
    while i < v.len()
        invariant
            i <= v@.len(),
            forall|j: int| 0 <= j < i ==> v@[j].key_spec() != k,
            match lookup_index(v@, k) {
                Some(x) => 0 <= x < v@.len() && lookup(v@, k) == Some(v@[x]) && v@[x].key_spec() == k
                    && forall|j: int| 0 <= j < x ==> v@[j].key_spec() != k,
                None => lookup(v@, k) is None && forall|j: int| 0 <= j < v@.len() ==> v@[j].key_spec()
                    != k,
            },
        decreases v@.len() - i,
    {
        if v[i].key() == k {
            return Some(i);
        }
        i = i + 1;
    }
    None
}

/// Replaces the first value with the id of `x`, or appends `x` when there is none.
pub fn upsert<T: Keyed>(v: &mut Vec<T>, x: T)
    ensures
        lookup(final(v)@, x.key_spec()) == Some(x),
        forall|k: u64| k != x.key_spec() ==> lookup(final(v)@, k) == lookup(old(v)@, k),
        match lookup_index(old(v)@, x.key_spec()) {
            Some(i) => final(v)@ == old(v)@.update(i, x),
            None => final(v)@ == old(v)@.push(x),
        },
{
    let k = x.key();
    let found = find_index(v, k);
    proof {
        lemma_lookup_index(v@, k);
    }
    match found {
        Some(i) => {
            let ghost before = v@;
            v.set(i, x);
            proof {
                lemma_lookup_index(v@, k);
                assert forall|kk: u64| kk != k implies lookup(v@, kk) == lookup(before, kk) by {
                    lemma_lookup_update(before, i as int, x, kk);
                }
                assert(v@[i as int] == x);
                assert forall|j: int| 0 <= j < i implies v@[j].key_spec() != k by {
                    assert(v@[j] == before[j]);
                }
                lemma_first_match_is_lookup(v@, k, i as int);
            }
        },
        None => {
            let ghost before = v@;
            v.push(x);
            proof {
                assert forall|kk: u64| kk != k implies lookup(v@, kk) == lookup(before, kk) by {
                    lemma_lookup_push(before, x, kk);
                }
                lemma_lookup_push(before, x, k);
            }
        },
    }
}

/// A value that is the first with its id is what the lookup finds.
pub proof fn lemma_first_match_is_lookup<T: Keyed>(s: Seq<T>, k: u64, i: int)
    requires
        0 <= i < s.len(),
        s[i].key_spec() == k,
        forall|j: int| 0 <= j < i ==> s[j].key_spec() != k,
    ensures
        lookup(s, k) == Some(s[i]),
        lookup_index(s, k) == Some(i),
    decreases i,
{
    if i > 0 {
        lemma_first_match_is_lookup(s.drop_first(), k, i - 1);
    }
}

/// Appending a value changes only the lookups that found nothing before and match it.
pub proof fn lemma_lookup_push<T: Keyed>(s: Seq<T>, x: T, k: u64)
    ensures
        lookup(s.push(x), k) == (match lookup(s, k) {
            Some(y) => Some(y),
            None => if x.key_spec() == k {
                Some(x)
            } else {
                None
            },
        }),
    decreases s.len(),
{
    if s.len() == 0 {
        assert(s.push(x).drop_first() =~= Seq::<T>::empty());
        assert(s.push(x)[0] == x);
        assert(lookup(Seq::<T>::empty(), k) is None);
    } else {
        assert(s.push(x).drop_first() =~= s.drop_first().push(x));
        assert(s.push(x)[0] == s[0]);
        lemma_lookup_push(s.drop_first(), x, k);
    }
}

/// Overwriting one value with another of the same id leaves the lookups of other ids alone.
pub proof fn lemma_lookup_update<T: Keyed>(s: Seq<T>, i: int, x: T, k: u64)
    requires
        0 <= i < s.len(),
        s[i].key_spec() == x.key_spec(),
        k != x.key_spec(),
    ensures
        lookup(s.update(i, x), k) == lookup(s, k),
    decreases s.len(),
{
    if i > 0 {
        assert(s.update(i, x).drop_first() =~= s.drop_first().update(i - 1, x));
        lemma_lookup_update(s.drop_first(), i - 1, x, k);
    } else {
        assert(s.update(i, x).drop_first() =~= s.drop_first());
    }
}

/// The values of `s` without those with id `k`.
pub open spec fn without_key<T: Keyed>(s: Seq<T>, k: u64) -> Seq<T>
    decreases s.len(),
{
    if s.len() == 0 {
        Seq::empty()
    } else {
        let prev = without_key(s.drop_last(), k);
        if s.last().key_spec() == k {
            prev
        } else {
            prev.push(s.last())
        }
    }
}

proof fn lemma_without_key_lookup<T: Keyed>(s: Seq<T>, k: u64, j: u64)
    ensures
        lookup(without_key(s, k), j) == if j == k {
            None
        } else {
            lookup(s, j)
        },
    decreases s.len(),
{
    if s.len() > 0 {
        lemma_without_key_lookup(s.drop_last(), k, j);
        let prev = without_key(s.drop_last(), k);
        if s.last().key_spec() != k {
            lemma_lookup_push(prev, s.last(), j);
        }
        lemma_lookup_drop_last(s, j);
    }
}

/// Looking up in a sequence is looking up in all but its last value, then in the last one.
pub proof fn lemma_lookup_drop_last<T: Keyed>(s: Seq<T>, j: u64)
    requires
        s.len() > 0,
    ensures
        lookup(s, j) == (match lookup(s.drop_last(), j) {
            Some(y) => Some(y),
            None => if s.last().key_spec() == j {
                Some(s.last())
            } else {
                None
            },
        }),
{
    assert(s.drop_last().push(s.last()) =~= s);
    lemma_lookup_push(s.drop_last(), s.last(), j);
}

/// Removes every value with id `k`.
pub fn remove_key<T: Keyed>(v: &mut Vec<T>, k: u64)
    ensures
        lookup(final(v)@, k) is None,
        forall|j: u64| j != k ==> lookup(final(v)@, j) == lookup(old(v)@, j),
{
    let mut kept: Vec<T> = Vec::new();
    let mut taken: Vec<T> = Vec::new();
    std::mem::swap(&mut taken, v);
    let ghost orig = taken@;
    for item in it: taken.into_iter()
        invariant
            it.seq() == orig,
            kept@ == without_key(orig.take(it.index() as int), k),
    {
        let ghost i = it.index() as int;
        assert(orig.take(i + 1).drop_last() =~= orig.take(i));
        assert(orig.take(i + 1).last() == item);
        if item.key() != k {
            kept.push(item);
        }
    }
    assert(orig.take(orig.len() as int) =~= orig);
    *v = kept;
    proof {
        lemma_without_key_lookup(orig, k, k);
        assert forall|j: u64| j != k implies lookup(v@, j) == lookup(orig, j) by {
            lemma_without_key_lookup(orig, k, j);
        }
    }
}

/// Puts `x` at position `i` and hands back what was there.
pub fn swap_at<T>(v: &mut Vec<T>, i: usize, x: T) -> (previous: T)
    requires
        i < old(v)@.len(),
    ensures
        previous == old(v)@[i as int],
        final(v)@ == old(v)@.update(i as int, x),
{
    let mut item = x;
    std::mem::swap(&mut v[i], &mut item);
    item
}

} // verus!
