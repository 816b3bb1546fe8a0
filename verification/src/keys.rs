//! Operator public keys in serialised form, and their canonical order.

use vstd::prelude::*;
use vstd::seq_lib::to_multiset_insert;

verus! {

/// The serialised public key of an operator.
pub type PublicKey = Vec<u8>;

/// The byte strings of a list of keys.
pub open spec fn key_views(keys: Seq<PublicKey>) -> Seq<Seq<u8>> {
    Seq::new(keys.len(), |k: int| keys[k]@)
}

/// Whether two serialised keys hold the same bytes.
pub fn same_key(a: &PublicKey, b: &PublicKey) -> (out: bool)
    ensures
        out == (a@ == b@),
{
    if a.len() != b.len() {
        return false;
    }
    let mut k: usize = 0;
    while k < a.len()
        invariant
            k <= a.len(),
            a.len() == b.len(),
            forall|j: int| 0 <= j < k ==> a@[j] == b@[j],
        decreases a.len() - k,
    {
        if a[k] != b[k] {
            return false;
        }
        k = k + 1;
    }
    assert(a@ =~= b@);
    true
}

/// Lexicographic byte order: `a` comes no later than `b` if `a` is a prefix of
/// `b`, or holds the smaller byte where the two first differ.
pub open spec fn lex_le(a: Seq<u8>, b: Seq<u8>) -> bool
    decreases a.len(),
{
    if a.len() == 0 {
        true
    } else if b.len() == 0 {
        false
    } else if a[0] != b[0] {
        a[0] < b[0]
    } else {
        lex_le(a.skip(1), b.skip(1))
    }
}

/// Of two byte strings, one comes no later than the other.
pub proof fn lemma_lex_total(a: Seq<u8>, b: Seq<u8>)
    ensures
        lex_le(a, b) || lex_le(b, a),
    decreases a.len(),
{
    if a.len() > 0 && b.len() > 0 && a[0] == b[0] {
        lemma_lex_total(a.skip(1), b.skip(1));
    }
}

/// Byte strings that come no later than each other are equal.
pub proof fn lemma_lex_antisymmetric(a: Seq<u8>, b: Seq<u8>)
    requires
        lex_le(a, b),
        lex_le(b, a),
    ensures
        a == b,
    decreases a.len(),
{
    if a.len() > 0 && b.len() > 0 {
        lemma_lex_antisymmetric(a.skip(1), b.skip(1));
        assert(a =~= seq![a[0]] + a.skip(1));
        assert(b =~= seq![b[0]] + b.skip(1));
    } else {
        assert(a =~= b);
    }
}

/// The order is transitive.
pub proof fn lemma_lex_transitive(a: Seq<u8>, b: Seq<u8>, c: Seq<u8>)
    requires
        lex_le(a, b),
        lex_le(b, c),
    ensures
        lex_le(a, c),
    decreases a.len(),
{
    if a.len() > 0 && b.len() > 0 && c.len() > 0 && a[0] == b[0] && b[0] == c[0] {
        lemma_lex_transitive(a.skip(1), b.skip(1), c.skip(1));
    }
}

/// Whether `a` comes no later than `b` in lexicographic byte order.
pub fn key_le(a: &PublicKey, b: &PublicKey) -> (out: bool)
    ensures
        out == lex_le(a@, b@),
{
    let mut k: usize = 0;
    assert(a@.skip(0) =~= a@ && b@.skip(0) =~= b@);
    while k < a.len() && k < b.len()
        invariant
            k <= a.len(),
            k <= b.len(),
            lex_le(a@, b@) == lex_le(a@.skip(k as int), b@.skip(k as int)),
        decreases a.len() - k,
    {
        let ghost rest_a = a@.skip(k as int);
        let ghost rest_b = b@.skip(k as int);
        assert(rest_a[0] == a@[k as int] && rest_b[0] == b@[k as int]);
        if a[k] != b[k] {
            return a[k] < b[k];
        }
        assert(rest_a.skip(1) =~= a@.skip(k + 1));
        assert(rest_b.skip(1) =~= b@.skip(k + 1));
        k = k + 1;
    }
    k == a.len()
}

/// Whether a list of byte strings ascends in lexicographic order.
pub open spec fn is_ascending(keys: Seq<Seq<u8>>) -> bool {
    forall|a: int, b: int| 0 <= a <= b < keys.len() ==> lex_le(keys[a], keys[b])
}

/// Sorts keys into ascending lexicographic byte order.
pub fn sort_keys(keys: &Vec<PublicKey>) -> (out: Vec<PublicKey>)
    ensures
        is_ascending(key_views(out@)),
        key_views(out@).to_multiset() == key_views(keys@).to_multiset(),
{
    let mut out: Vec<PublicKey> = Vec::new();
    let mut k: usize = 0;
    assert(key_views(keys@).take(0) =~= key_views(out@));
    while k < keys.len()
        invariant
            k <= keys.len(),
            is_ascending(key_views(out@)),
            key_views(out@).to_multiset() == key_views(keys@).take(k as int).to_multiset(),
        decreases keys.len() - k,
    {
        let key = keys[k].clone();
        assert(key@ == keys@[k as int]@);
        let mut p: usize = 0;
        while p < out.len() && key_le(&out[p], &key)
            invariant
                p <= out.len(),
                forall|j: int| 0 <= j < p ==> lex_le(out@[j]@, key@),
            decreases out.len() - p,
        {
            p = p + 1;
        }
        let ghost before = key_views(out@);
        proof {
            if p < out.len() {
                lemma_lex_total(out@[p as int]@, key@);
                assert forall|j: int| p <= j < before.len() implies lex_le(key@, before[j]) by {
                    lemma_lex_transitive(key@, before[p as int], before[j]);
                }
            }
        }
        out.insert(p, key);
        proof {
            let after = key_views(out@);
            assert(after =~= before.insert(p as int, key@));
            to_multiset_insert(before, p as int, key@);
            let seen = key_views(keys@).take(k + 1);
            assert(seen =~= key_views(keys@).take(k as int).push(key@));
            vstd::seq_lib::to_multiset_build(key_views(keys@).take(k as int), key@);
            assert forall|a: int, b: int| 0 <= a <= b < after.len() implies lex_le(
                after[a],
                after[b],
            ) by {
                if a == b {
                    lemma_lex_total(after[a], after[a]);
                } else if b == p {
                    assert(after[a] == before[a]);
                } else if a == p {
                    assert(after[b] == before[b - 1]);
                } else {
                    let a0 = if a < p { a } else { a - 1 };
                    let b0 = if b < p { b } else { b - 1 };
                    assert(after[a] == before[a0] && after[b] == before[b0]);
                }
            }
        }
        k = k + 1;
    }
    assert(key_views(keys@).take(k as int) =~= key_views(keys@));
    out
}

/// The canonical order is unique: two ascending lists of the same keys, each
/// key as often in one as in the other, are the same list. So nodes that sort
/// the same set of operators assign the same party indices.
pub proof fn lemma_ascending_is_canonical(first: Seq<Seq<u8>>, second: Seq<Seq<u8>>)
    requires
        is_ascending(first),
        is_ascending(second),
        first.to_multiset() == second.to_multiset(),
    ensures
        first == second,
    decreases first.len(),
{
    first.to_multiset_ensures();
    second.to_multiset_ensures();
    assert(first.len() == second.len());
    if first.len() == 0 {
        assert(first =~= second);
    } else {
        assert(first.contains(first[0]));
        assert(second.contains(second[0]));
        assert(second.to_multiset().count(first[0]) > 0);
        assert(first.to_multiset().count(second[0]) > 0);
        assert(second.contains(first[0]));
        assert(first.contains(second[0]));
        let at_second = choose|k: int| 0 <= k < second.len() && second[k] == first[0];
        let at_first = choose|k: int| 0 <= k < first.len() && first[k] == second[0];
        assert(lex_le(second[0], second[at_second]));
        assert(lex_le(first[0], first[at_first]));
        lemma_lex_antisymmetric(first[0], second[0]);
        let rest_first = first.remove(0);
        let rest_second = second.remove(0);
        vstd::seq_lib::to_multiset_remove(first, 0);
        vstd::seq_lib::to_multiset_remove(second, 0);
        assert(rest_first.to_multiset() == rest_second.to_multiset());
        assert forall|a: int, b: int| 0 <= a <= b < rest_first.len() implies lex_le(
            rest_first[a],
            rest_first[b],
        ) by {
            assert(rest_first[a] == first[a + 1] && rest_first[b] == first[b + 1]);
        }
        assert forall|a: int, b: int| 0 <= a <= b < rest_second.len() implies lex_le(
            rest_second[a],
            rest_second[b],
        ) by {
            assert(rest_second[a] == second[a + 1] && rest_second[b] == second[b + 1]);
        }
        lemma_ascending_is_canonical(rest_first, rest_second);
        assert(first =~= seq![first[0]] + rest_first);
        assert(second =~= seq![second[0]] + rest_second);
    }
}

} // verus!
