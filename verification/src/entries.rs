//! Find-or-insert helpers shared by the field builders.
//!
//! Two shapes recur throughout resource manipulation: a list of named
//! entries (containers, environment variables, ports, volumes, mounts) that
//! is patched by name, and a list of key/value pairs standing in for a map.
//! Both are kept in insertion order.

use vstd::prelude::*;

use crate::utils::str_eq;

verus! {

/// The first index satisfying `p`.
pub open spec fn first_where<A>(s: Seq<A>, p: spec_fn(A) -> bool) -> int
    decreases s.len(),
{
    if s.len() == 0 {
        0
    } else if p(s[0]) {
        0
    } else {
        1 + first_where(s.skip(1), p)
    }
}

/// `first_where` really is the first satisfying index.
pub proof fn lemma_first_where<A>(s: Seq<A>, p: spec_fn(A) -> bool)
    requires
        exists|i: int| 0 <= i < s.len() && p(#[trigger] s[i]),
    ensures
        0 <= first_where(s, p) < s.len(),
        p(s[first_where(s, p)]),
        forall|j: int| 0 <= j < first_where(s, p) ==> !p(#[trigger] s[j]),
    decreases s.len(),
{
    if s.len() == 0 {
    } else if p(s[0]) {
    } else {
        assert(exists|i: int| 0 <= i < s.skip(1).len() && p(#[trigger] s.skip(1)[i])) by {
            let w = choose|i: int| 0 <= i < s.len() && p(#[trigger] s[i]);
            assert(s.skip(1)[w - 1] == s[w]);
        }
        lemma_first_where(s.skip(1), p);
        assert forall|j: int| 0 <= j < first_where(s, p) implies !p(#[trigger] s[j]) by {
            if j > 0 {
                assert(s.skip(1)[j - 1] == s[j]);
            }
        }
    }
}

/// A first satisfying index found by a forward scan is `first_where`.
pub proof fn lemma_first_where_of_scan<A>(s: Seq<A>, p: spec_fn(A) -> bool, i: int)
    requires
        0 <= i < s.len(),
        p(s[i]),
        forall|j: int| 0 <= j < i ==> !p(#[trigger] s[j]),
    ensures
        exists|k: int| 0 <= k < s.len() && p(#[trigger] s[k]),
        first_where(s, p) == i,
    decreases s.len(),
{
    if i == 0 {
    } else {
        assert forall|j: int| 0 <= j < i - 1 implies !p(#[trigger] s.skip(1)[j]) by {
            assert(s.skip(1)[j] == s[j + 1]);
        }
        assert(s.skip(1)[i - 1] == s[i]);
        lemma_first_where_of_scan(s.skip(1), p, i - 1);
    }
}

/// An entry patched by name in a list of named entries.
pub trait KeyedEntry: Sized {
    /// The name this entry is found under, if it has one.
    spec fn entry_key(&self) -> Option<Seq<char>>;

    /// Whether this is the entry a patch starts from when the name is not
    /// present yet: everything default but the name.
    spec fn is_fresh(&self, name: Seq<char>) -> bool;

    fn key_matches(&self, name: &str) -> (b: bool)
        ensures
            b == (self.entry_key() == Some(name@)),
    ;

    fn fresh(name: String) -> (e: Self)
        ensures
            e.is_fresh(name@),
    ;
}

/// Whether the list holds an entry under `name`.
pub open spec fn has_keyed<T: KeyedEntry>(s: Seq<T>, name: Seq<char>) -> bool {
    exists|i: int| 0 <= i < s.len() && (#[trigger] s[i]).entry_key() == Some(name)
}

/// The first index holding `name`.
pub open spec fn keyed_index<T: KeyedEntry>(s: Seq<T>, name: Seq<char>) -> int {
    first_where(s, |e: T| e.entry_key() == Some(name))
}

/// `keyed_index` really is the first index holding `name`.
pub proof fn lemma_keyed_index<T: KeyedEntry>(s: Seq<T>, name: Seq<char>)
    requires
        has_keyed(s, name),
    ensures
        0 <= keyed_index(s, name) < s.len(),
        s[keyed_index(s, name)].entry_key() == Some(name),
        forall|j: int|
            0 <= j < keyed_index(s, name) ==> (#[trigger] s[j]).entry_key() != Some(name),
{
    let p = |e: T| e.entry_key() == Some(name);
    assert(exists|i: int| 0 <= i < s.len() && p(#[trigger] s[i])) by {
        let w = choose|i: int| 0 <= i < s.len() && (#[trigger] s[i]).entry_key() == Some(name);
        assert(p(s[w]));
    }
    lemma_first_where(s, p);
}

/// Patch the entry under `name`, creating it first when absent.
///
/// The patch function receives either the present entry or a fresh one
/// carrying the name, and what it returns is stored; all other entries stay
/// put, in place.
pub fn apply_keyed<T: KeyedEntry, F: FnOnce(T) -> T>(v: &mut Vec<T>, name: &str, f: F)
    requires
        has_keyed(old(v)@, name@) ==> call_requires(
            f,
            (old(v)@[keyed_index(old(v)@, name@)],),
        ),
        !has_keyed(old(v)@, name@) ==> forall|d: T|
            d.is_fresh(name@) ==> call_requires(f, (d,)),
    ensures
        has_keyed(old(v)@, name@) ==> {
            let i = keyed_index(old(v)@, name@);
            &&& final(v)@.len() == old(v)@.len()
            &&& call_ensures(f, (old(v)@[i],), final(v)@[i])
            &&& forall|j: int| 0 <= j < old(v)@.len() && j != i ==> final(v)@[j] == old(v)@[j]
        },
        !has_keyed(old(v)@, name@) ==> {
            &&& final(v)@.len() == old(v)@.len() + 1
            &&& exists|d: T|
                d.is_fresh(name@) && #[trigger] call_ensures(
                    f,
                    (d,),
                    final(v)@[old(v)@.len() as int],
                )
            &&& forall|j: int| 0 <= j < old(v)@.len() ==> final(v)@[j] == old(v)@[j]
        },
{
    let ghost orig = v@;
    let ghost p = |e: T| e.entry_key() == Some(name@);
    let mut i: usize = 0;
    #[verifier::loop_isolation(false)]
    while i < v.len()
        invariant
            i <= v@.len(),
            v@ == orig,
            forall|j: int| 0 <= j < i ==> !p(#[trigger] orig[j]),
        decreases v@.len() - i,
    {
        if v[i].key_matches(name) {
            proof {
                lemma_first_where_of_scan(orig, p, i as int);
            }
            let entry = v.remove(i);
            let entry = f(entry);
            v.insert(i, entry);
            proof {
                assert(v@ =~= orig.update(i as int, v@[i as int]));
            }
            return;
        }
        i += 1;
    }
    proof {
        assert(!has_keyed(orig, name@));
    }
    let fresh = T::fresh(name.to_owned());
    let ghost d0 = fresh;
    let entry = f(fresh);
    v.push(entry);
    proof {
        assert(d0.is_fresh(name@) && call_ensures(f, (d0,), v@[orig.len() as int]));
    }
}

/// Remove every entry under `name`, keeping the order of the rest; report
/// whether anything was removed.
pub fn drop_keyed<T: KeyedEntry>(v: &mut Vec<T>, name: &str) -> (removed: bool)
    ensures
        final(v)@ == old(v)@.filter(|e: T| e.entry_key() != Some(name@)),
        removed == (final(v)@.len() != old(v)@.len()),
{
    let ghost keep = |e: T| e.entry_key() != Some(name@);
    let ghost orig = v@;
    let start = v.len();
    let mut i: usize = 0;
    let ghost k: int = 0;
    #[verifier::loop_isolation(false)]
    while i < v.len()
        invariant
            0 <= k <= orig.len(),
            i == orig.subrange(0, k).filter(keep).len(),
            v@ =~= orig.subrange(0, k).filter(keep) + orig.skip(k),
            i <= v@.len(),
        decreases orig.len() - k,
    {
        proof {
            reveal(Seq::filter);
            let prefix = orig.subrange(0, k);
            let extended = orig.subrange(0, k + 1);
            assert(extended.drop_last() =~= prefix);
            assert(extended.drop_last() == prefix);
            assert(extended.last() == orig[k]);
            assert(v@[i as int] == orig[k]);
        }
        if v[i].key_matches(name) {
            v.remove(i);
            proof {
                reveal(Seq::filter);
                assert(!keep(orig[k]));
                assert(orig.subrange(0, k + 1).filter(keep) == orig.subrange(0, k).filter(keep));
                assert(v@ =~= orig.subrange(0, k + 1).filter(keep) + orig.skip(k + 1));
            }
        } else {
            i += 1;
            proof {
                reveal(Seq::filter);
                assert(keep(orig[k]));
                assert(orig.subrange(0, k + 1).filter(keep) =~= orig.subrange(0, k).filter(
                    keep,
                ).push(orig[k]));
                assert(v@ =~= orig.subrange(0, k + 1).filter(keep) + orig.skip(k + 1));
            }
        }
        proof {
            k = k + 1;
        }
    }
    proof {
        assert(orig.subrange(0, orig.len() as int) =~= orig);
        assert(v@ =~= orig.filter(keep));
    }
    v.len() != start
}

/// Whether the pair list holds key `k`.
pub open spec fn has_entry<W>(m: Seq<(Seq<char>, W)>, k: Seq<char>) -> bool {
    exists|i: int| 0 <= i < m.len() && (#[trigger] m[i]).0 == k
}

/// The first index holding key `k`.
pub open spec fn entry_index<W>(m: Seq<(Seq<char>, W)>, k: Seq<char>) -> int {
    first_where(m, |p: (Seq<char>, W)| p.0 == k)
}

/// The map upsert rule: replace the value under a present key — or keep it,
/// when asked to — and append an absent key.
pub open spec fn upsert_entry<W>(m: Seq<(Seq<char>, W)>, k: Seq<char>, keep: bool, v: W) -> Seq<
    (Seq<char>, W),
> {
    if has_entry(m, k) {
        if keep {
            m
        } else {
            m.update(entry_index(m, k), (k, v))
        }
    } else {
        m.push((k, v))
    }
}

/// The map removal rule: drop every pair under key `k`.
pub open spec fn remove_entry<W>(m: Seq<(Seq<char>, W)>, k: Seq<char>) -> Seq<(Seq<char>, W)> {
    m.filter(|p: (Seq<char>, W)| p.0 != k)
}

/// The mathematical content of a pair list.
pub open spec fn pair_views<V: View>(s: Seq<(String, V)>) -> Seq<(Seq<char>, V::V)> {
    s.map_values(|p: (String, V)| (p.0@, p.1@))
}

/// Store `value` under `key`, or keep a present value when `keep_existing`.
pub fn upsert_pair<V: View>(m: &mut Vec<(String, V)>, key: &str, keep_existing: bool, value: V)
    ensures
        pair_views(final(m)@) == upsert_entry(
            pair_views(old(m)@),
            key@,
            keep_existing,
            value@,
        ),
{
    let ghost orig = pair_views(m@);
    let ghost p = |q: (Seq<char>, V::V)| q.0 == key@;
    let mut i: usize = 0;
    #[verifier::loop_isolation(false)]
    while i < m.len()
        invariant
            i <= m@.len(),
            pair_views(m@) == orig,
            forall|j: int| 0 <= j < i ==> !p(#[trigger] orig[j]),
        decreases m@.len() - i,
    {
        assert(orig[i as int] == (m@[i as int].0@, m@[i as int].1@));
        if str_eq(m[i].0.as_str(), key) {
            proof {
                lemma_first_where_of_scan(orig, p, i as int);
            }
            if !keep_existing {
                let pair = m.remove(i);
                m.insert(i, (pair.0, value));
                proof {
                    assert(pair_views(m@) =~= orig.update(i as int, (key@, value@)));
                }
            }
            return;
        }
        i += 1;
    }
    proof {
        assert(!has_entry(orig, key@));
    }
    m.push((key.to_owned(), value));
    proof {
        assert(pair_views(m@) =~= orig.push((key@, value@)));
    }
}

/// Drop every pair under `key`, keeping the order of the rest.
pub fn remove_pair<V: View>(m: &mut Vec<(String, V)>, key: &str)
    ensures
        pair_views(final(m)@) == remove_entry(pair_views(old(m)@), key@),
{
    let ghost keep = |q: (Seq<char>, V::V)| q.0 != key@;
    let ghost orig = pair_views(m@);
    let mut i: usize = 0;
    let ghost k: int = 0;
    #[verifier::loop_isolation(false)]
    while i < m.len()
        invariant
            0 <= k <= orig.len(),
            i == orig.subrange(0, k).filter(keep).len(),
            pair_views(m@) =~= orig.subrange(0, k).filter(keep) + orig.skip(k),
            i <= m@.len(),
        decreases orig.len() - k,
    {
        proof {
            reveal(Seq::filter);
            let prefix = orig.subrange(0, k);
            let extended = orig.subrange(0, k + 1);
            assert(extended.drop_last() =~= prefix);
            assert(extended.drop_last() == prefix);
            assert(extended.last() == orig[k]);
            assert(pair_views(m@)[i as int] == (m@[i as int].0@, m@[i as int].1@));
            assert(pair_views(m@)[i as int] == orig[k]);
        }
        if str_eq(m[i].0.as_str(), key) {
            let ghost pv0 = pair_views(m@);
            let ghost m0 = m@;
            m.remove(i);
            proof {
                reveal(Seq::filter);
                assert(!keep(orig[k]));
                assert(orig.subrange(0, k + 1).filter(keep) == orig.subrange(0, k).filter(keep));
                assert forall|idx: int| 0 <= idx < m@.len() implies pair_views(m@)[idx]
                    == pv0.remove(i as int)[idx] by {
                    assert(pair_views(m@)[idx] == (m@[idx].0@, m@[idx].1@));
                    if idx < i {
                        assert(m@[idx] == m0[idx]);
                        assert(pv0[idx] == (m0[idx].0@, m0[idx].1@));
                    } else {
                        assert(m@[idx] == m0[idx + 1]);
                        assert(pv0[idx + 1] == (m0[idx + 1].0@, m0[idx + 1].1@));
                    }
                }
                assert(pair_views(m@) =~= pv0.remove(i as int));
                assert(pair_views(m@) =~= orig.subrange(0, k + 1).filter(keep) + orig.skip(k + 1));
            }
        } else {
            i += 1;
            proof {
                reveal(Seq::filter);
                assert(keep(orig[k]));
                assert(orig.subrange(0, k + 1).filter(keep) =~= orig.subrange(0, k).filter(
                    keep,
                ).push(orig[k]));
                assert(pair_views(m@) =~= orig.subrange(0, k + 1).filter(keep) + orig.skip(
                    k + 1,
                ));
            }
        }
        proof {
            k = k + 1;
        }
    }
    proof {
        assert(orig.subrange(0, orig.len() as int) =~= orig);
        assert(pair_views(m@) =~= orig.filter(keep));
    }
}

} // verus!
