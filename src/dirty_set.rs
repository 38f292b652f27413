use vstd::prelude::*;
use indexmap::IndexSet;

verus! {

#[verifier::external_type_specification]
#[verifier::external_body]
#[verifier::reject_recursive_types(T)]
#[verifier::reject_recursive_types(S)]
pub struct ExIndexSet<T, S>(indexmap::IndexSet<T, S>);

/// The items of an insertion-ordered set of identity keys, oldest first.
pub uninterp spec fn set_items(s: IndexSet<(usize, u64)>) -> Seq<(usize, u64)>;

/// After pushing `k`, a sequence holds exactly what it held and `k`.
pub proof fn lemma_push_contains<K>(s: Seq<K>, k: K)
    ensures
        forall|x: K| #[trigger] s.push(k).contains(x) <==> (s.contains(x) || x == k),
{
    assert forall|x: K| #[trigger] s.push(k).contains(x) <==> (s.contains(x) || x == k) by {
        if s.contains(x) {
            let j = choose|j: int| 0 <= j < s.len() && s[j] == x;
            assert(s.push(k)[j] == x);
        }
        if x == k {
            assert(s.push(k)[s.len() as int] == k);
        }
        if s.push(k).contains(x) {
            let j = choose|j: int| 0 <= j < s.len() + 1 && s.push(k)[j] == x;
            if j < s.len() {
                assert(s[j] == x);
            }
        }
    }
}

/// Relies on indexmap::IndexSet::new: a new set holds nothing.
#[verifier::external_body]
pub(crate) fn set_new() -> (r: IndexSet<(usize, u64)>)
    ensures
        set_items(r) == Seq::<(usize, u64)>::empty(),
{
    IndexSet::new()
}

/// Relies on indexmap::IndexSet::insert: an item already present is kept where it is,
/// a new one goes at the end.
#[verifier::external_body]
pub(crate) fn set_insert(s: &mut IndexSet<(usize, u64)>, k: (usize, u64))
    ensures
        set_items(*old(s)).contains(k) ==> set_items(*final(s)) == set_items(*old(s)),
        !set_items(*old(s)).contains(k) ==> set_items(*final(s)) == set_items(*old(s)).push(k),
{
    s.insert(k);
}

/// Relies on indexmap::IndexSet::drain over the full range: every item comes out in
/// order and the set is left empty.
#[verifier::external_body]
pub(crate) fn set_drain_all(s: &mut IndexSet<(usize, u64)>) -> (r: Vec<(usize, u64)>)
    ensures
        r@ == set_items(*old(s)),
        set_items(*final(s)) == Seq::<(usize, u64)>::empty(),
{
    s.drain(..).collect()
}

/// Relies on indexmap::IndexSet::contains: membership of an item.
#[verifier::external_body]
pub(crate) fn set_contains(s: &IndexSet<(usize, u64)>, k: (usize, u64)) -> (r: bool)
    ensures
        r == set_items(*s).contains(k),
{
    s.contains(&k)
}

/// Relies on indexmap::IndexSet::iter: the items in insertion order.
#[verifier::external_body]
pub(crate) fn set_to_vec(s: &IndexSet<(usize, u64)>) -> (r: Vec<(usize, u64)>)
    ensures
        r@ == set_items(*s),
{
    s.iter().cloned().collect()
}

} // verus!
