//! List synchronization: turning a raw unit listing into the authoritative
//! service list (deduplicated by name, first occurrence wins, sorted
//! case-insensitively by name) and merging the asynchronously produced
//! enrichment map without overwriting directly fetched values.

use vstd::prelude::*;
use crate::service::Service;
use crate::text::{lex_lower_le, str_lex_lower_le, str_eq, lemma_lex_lower_total,
    lemma_lex_lower_trans};

verus! {

/// The sequence is ordered case-insensitively by service name.
pub open spec fn sorted_by_name(s: Seq<Service>) -> bool {
    forall|i: int, j: int|
        0 <= i < j < s.len() ==> lex_lower_le(#[trigger] s[i]@.name, #[trigger] s[j]@.name)
}

/// Some element of `s` carries this name.
pub open spec fn has_name(s: Seq<Service>, name: Seq<char>) -> bool {
    exists|i: int| 0 <= i < s.len() && (#[trigger] s[i])@.name == name
}

/// No two elements share a name.
pub open spec fn unique_names(s: Seq<Service>) -> bool {
    forall|i: int, j: int| 0 <= i < j < s.len() ==> (#[trigger] s[i])@.name != (#[trigger] s[j])@.name
}

/// The subsequence keeping, for each name, only its first occurrence.
pub open spec fn dedup_first(s: Seq<Service>) -> Seq<Service>
    decreases s.len(),
{
    if s.len() == 0 {
        Seq::empty()
    } else {
        let d = dedup_first(s.drop_last());
        if has_name(s.drop_last(), s.last()@.name) {
            d
        } else {
            d.push(s.last())
        }
    }
}

/// Deduplication keeps exactly the names of the input and never repeats one.
pub proof fn lemma_dedup_first_names(s: Seq<Service>)
    ensures
        forall|n: Seq<char>| #[trigger] has_name(dedup_first(s), n) <==> has_name(s, n),
        unique_names(dedup_first(s)),
    decreases s.len(),
{
    if s.len() == 0 {
    } else {
        let front = s.drop_last();
        let d = dedup_first(front);
        lemma_dedup_first_names(front);
        assert forall|n: Seq<char>| #[trigger] has_name(dedup_first(s), n) <==> has_name(s, n) by {
            if has_name(s, n) {
                let i = choose|i: int| 0 <= i < s.len() && (#[trigger] s[i])@.name == n;
                if i < s.len() - 1 {
                    assert(front[i] == s[i]);
                    assert(has_name(front, n));
                } else {
                    if has_name(front, n) {
                        assert(has_name(d, n));
                        let k = choose|k: int| 0 <= k < d.len() && (#[trigger] d[k])@.name == n;
                        assert(dedup_first(s)[k] == d[k] || dedup_first(s) == d);
                        assert(has_name(dedup_first(s), n));
                    } else {
                        assert(dedup_first(s) == d.push(s.last()));
                        assert(dedup_first(s)[d.len() as int] == s.last());
                        assert(has_name(dedup_first(s), n));
                    }
                }
                if has_name(d, n) {
                    let k = choose|k: int| 0 <= k < d.len() && (#[trigger] d[k])@.name == n;
                    if has_name(front, s.last()@.name) {
                        assert(dedup_first(s)[k] == d[k]);
                    } else {
                        assert(dedup_first(s)[k] == d[k]);
                    }
                    assert(has_name(dedup_first(s), n));
                }
            }
            if has_name(dedup_first(s), n) {
                let k = choose|k: int|
                    0 <= k < dedup_first(s).len() && (#[trigger] dedup_first(s)[k])@.name == n;
                if k < d.len() {
                    assert(dedup_first(s)[k] == d[k]);
                    assert(has_name(d, n));
                    let i = choose|i: int| 0 <= i < front.len() && (#[trigger] front[i])@.name == n;
                    assert(s[i] == front[i]);
                    assert(has_name(s, n));
                } else {
                    assert(dedup_first(s)[k] == s.last());
                    assert(s[s.len() - 1]@.name == n);
                    assert(has_name(s, n));
                }
            }
        }
        assert(unique_names(dedup_first(s))) by {
            if !has_name(front, s.last()@.name) {
                assert forall|i: int, j: int| 0 <= i < j < dedup_first(s).len() implies (
                #[trigger] dedup_first(s)[i])@.name != (#[trigger] dedup_first(s)[j])@.name by {
                    if j < d.len() {
                        assert(dedup_first(s)[i] == d[i] && dedup_first(s)[j] == d[j]);
                    } else {
                        assert(dedup_first(s)[i] == d[i]);
                        assert(dedup_first(s)[j] == s.last());
                        assert(!has_name(front, s.last()@.name));
                        if d[i]@.name == s.last()@.name {
                            assert(has_name(d, s.last()@.name));
                            assert(has_name(front, s.last()@.name));
                        }
                    }
                }
            }
        }
    }
}

/// Is some element of `list` named `name`?
pub fn contains_name(list: &Vec<Service>, name: &str) -> (r: bool)
    ensures
        r == has_name(list@, name@),
{
    let n = list.len();
    let mut i: usize = 0;
    while i < n
        invariant
            0 <= i <= n,
            n == list@.len(),
            forall|t: int| 0 <= t < i ==> (#[trigger] list@[t])@.name != name@,
        decreases n - i,
    {
        if str_eq(list[i].name(), name) {
            return true;
        }
        i = i + 1;
    }
    false
}

/// Removes duplicate names, keeping the first occurrence of each.
pub fn dedup_by_name(units: &Vec<Service>) -> (r: Vec<Service>)
    ensures
        r@ == dedup_first(units@),
{
    let mut out: Vec<Service> = Vec::new();
    let n = units.len();
    let mut i: usize = 0;
    proof {
        assert(units@.take(0) =~= Seq::<Service>::empty());
    }
    while i < n
        invariant
            0 <= i <= n,
            n == units@.len(),
            out@ == dedup_first(units@.take(i as int)),
        decreases n - i,
    {
        proof {
            assert(units@.take(i + 1).drop_last() =~= units@.take(i as int));
            assert(units@.take(i + 1).last() == units@[i as int]);
            lemma_dedup_first_names(units@.take(i as int));
        }
        if !contains_name(&out, units[i].name()) {
            let u = units[i].clone();
            out.push(u);
        }
        i = i + 1;
    }
    proof {
        assert(units@.take(n as int) =~= units@);
    }
    out
}

/// Insertion sort by case-insensitive name order. Requires pairwise distinct
/// names (what deduplication guarantees) and keeps them distinct.
pub fn sort_by_name(units: Vec<Service>) -> (r: Vec<Service>)
    requires
        unique_names(units@),
    ensures
        sorted_by_name(r@),
        r@.to_multiset() == units@.to_multiset(),
        unique_names(r@),
        forall|n: Seq<char>| #[trigger] has_name(r@, n) <==> has_name(units@, n),
    decreases units@.len(),
{
    broadcast use vstd::seq_lib::group_seq_properties;
    broadcast use vstd::seq_lib::group_to_multiset_ensures;

    let n = units.len();
    let mut out: Vec<Service> = Vec::new();
    let mut i: usize = 0;
    proof {
        assert(units@.take(0) =~= Seq::<Service>::empty());
        assert(out@.to_multiset() =~= units@.take(0).to_multiset());
    }
    while i < n
        invariant
            0 <= i <= n,
            n == units@.len(),
            unique_names(units@),
            sorted_by_name(out@),
            out@.to_multiset() == units@.take(i as int).to_multiset(),
            unique_names(out@),
            forall|m: Seq<char>| #[trigger] has_name(out@, m) <==> has_name(units@.take(i as int), m),
        decreases n - i,
    {
        let u = units[i].clone();
        let ghost old_out = out@;
        let mut p: usize = 0;
        while p < out.len() && str_lex_lower_le(out[p].name(), u.name())
            invariant
                0 <= p <= out@.len(),
                out@ == old_out,
                u == units@[i as int],
                forall|t: int| 0 <= t < p ==> lex_lower_le((#[trigger] out@[t])@.name, u@.name),
            decreases out@.len() - p,
        {
            p = p + 1;
        }
        proof {
            if p < out@.len() {
                lemma_lex_lower_total(out@[p as int]@.name, u@.name);
            }
        }
        out.insert(p, u);
        proof {
            let s = out@;
            assert forall|a: int, b: int| 0 <= a < b < s.len() implies lex_lower_le(
                (#[trigger] s[a])@.name,
                (#[trigger] s[b])@.name,
            ) by {
                if a < p && b == p {
                } else if a == p && b == p + 1 {
                } else if a == p && b > p + 1 {
                    lemma_lex_lower_trans(u@.name, old_out[p as int]@.name, old_out[b - 1]@.name);
                } else if a < p && b > p {
                    assert(s[a] == old_out[a] && s[b] == old_out[b - 1]);
                } else if a > p && b > p {
                    assert(s[a] == old_out[a - 1] && s[b] == old_out[b - 1]);
                } else if a < p && b < p {
                    assert(s[a] == old_out[a] && s[b] == old_out[b]);
                }
            }
            assert(units@.take(i + 1).drop_last() =~= units@.take(i as int));
            assert(units@.take(i + 1) =~= units@.take(i as int).push(units@[i as int]));
            assert(out@ == old_out.insert(p as int, u));
            vstd::seq_lib::to_multiset_insert(old_out, p as int, u);
            vstd::seq_lib::to_multiset_build(units@.take(i as int), units@[i as int]);
            assert(out@.to_multiset() =~= old_out.to_multiset().insert(u));
            assert(units@.take(i + 1).to_multiset() =~= units@.take(i as int).to_multiset().insert(
                u,
            ));
            assert(out@.to_multiset() =~= units@.take(i + 1).to_multiset());
            // membership of the new name
            assert forall|m: Seq<char>| #[trigger] has_name(s, m) <==> has_name(
                units@.take(i + 1),
                m,
            ) by {
                if has_name(s, m) {
                    let k = choose|k: int| 0 <= k < s.len() && (#[trigger] s[k])@.name == m;
                    if k == p {
                        assert(units@.take(i + 1)[i as int]@.name == m);
                    } else {
                        let k0: int = if k < p { k } else { k - 1 };
                        assert(old_out[k0]@.name == m);
                        assert(has_name(old_out, m));
                        let t = choose|t: int|
                            0 <= t < units@.take(i as int).len() && (#[trigger] units@.take(
                                i as int,
                            )[t])@.name == m;
                        assert(units@.take(i + 1)[t]@.name == m);
                    }
                    assert(has_name(units@.take(i + 1), m));
                }
                if has_name(units@.take(i + 1), m) {
                    let t = choose|t: int|
                        0 <= t < units@.take(i + 1).len() && (#[trigger] units@.take(i + 1)[t])@.name
                            == m;
                    if t == i {
                        assert(s[p as int]@.name == m);
                    } else {
                        assert(units@.take(i as int)[t]@.name == m);
                        assert(has_name(old_out, m));
                        let k = choose|k: int|
                            0 <= k < old_out.len() && (#[trigger] old_out[k])@.name == m;
                        let k1: int = if k < p { k } else { k + 1 };
                        assert(s[k1]@.name == m);
                    }
                    assert(has_name(s, m));
                }
            }
            // names stay pairwise distinct: the inserted one is new
            assert(!has_name(old_out, u@.name)) by {
                if has_name(old_out, u@.name) {
                    assert(has_name(units@.take(i as int), u@.name));
                    let t = choose|t: int|
                        0 <= t < units@.take(i as int).len() && (#[trigger] units@.take(
                            i as int,
                        )[t])@.name == u@.name;
                    assert(units@[t]@.name == units@[i as int]@.name);
                }
            }
            assert forall|a: int, b: int| 0 <= a < b < s.len() implies (#[trigger] s[a])@.name != (
            #[trigger] s[b])@.name by {
                if a == p {
                    let b0: int = if b < p { b } else { b - 1 };
                    assert(s[b]@.name == old_out[b0]@.name);
                    if s[a]@.name == s[b]@.name {
                        assert(has_name(old_out, u@.name));
                    }
                } else if b == p {
                    let a0: int = if a < p { a } else { a - 1 };
                    assert(s[a]@.name == old_out[a0]@.name);
                    if s[a]@.name == s[b]@.name {
                        assert(has_name(old_out, u@.name));
                    }
                } else {
                    let a0: int = if a < p { a } else { a - 1 };
                    let b0: int = if b < p { b } else { b - 1 };
                    assert(s[a] == old_out[a0] && s[b] == old_out[b0]);
                }
            }
        }
        i = i + 1;
    }
    proof {
        assert(units@.take(n as int) =~= units@);
    }
    out
}

/// The authoritative listing: duplicates removed (first occurrence wins),
/// then sorted case-insensitively by name.
pub fn normalize_listing(units: &Vec<Service>) -> (r: Vec<Service>)
    ensures
        sorted_by_name(r@),
        unique_names(r@),
        r@.to_multiset() == dedup_first(units@).to_multiset(),
        forall|n: Seq<char>| #[trigger] has_name(r@, n) <==> has_name(units@, n),
{
    let d = dedup_by_name(units);
    proof {
        lemma_dedup_first_names(units@);
    }
    sort_by_name(d)
}

/// First value stored under `key`, if any.
pub open spec fn map_lookup(pairs: Seq<(String, String)>, key: Seq<char>) -> Option<Seq<char>>
    decreases pairs.len(),
{
    if pairs.len() == 0 {
        None
    } else if pairs[0].0@ == key {
        Some(pairs[0].1@)
    } else {
        map_lookup(pairs.drop_first(), key)
    }
}

/// Looks a name up in the enrichment map (a list of name/state pairs).
pub fn lookup_state(pairs: &Vec<(String, String)>, key: &str) -> (r: Option<String>)
    ensures
        match r {
            Some(v) => map_lookup(pairs@, key@) == Some(v@),
            None => map_lookup(pairs@, key@) is None,
        },
{
    let n = pairs.len();
    let mut i: usize = 0;
    proof {
        assert(pairs@.skip(0) =~= pairs@);
    }
    while i < n
        invariant
            0 <= i <= n,
            n == pairs@.len(),
            map_lookup(pairs@, key@) == map_lookup(pairs@.skip(i as int), key@),
        decreases n - i,
    {
        proof {
            assert(pairs@.skip(i as int)[0] == pairs@[i as int]);
            assert(pairs@.skip(i as int).drop_first() =~= pairs@.skip(i + 1));
        }
        if str_eq(pairs[i].0.as_str(), key) {
            return Some(pairs[i].1.clone());
        }
        i = i + 1;
    }
    None
}

} // verus!
