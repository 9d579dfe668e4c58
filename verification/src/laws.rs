use vstd::prelude::*;

verus! {

/// Law: after an update writes `v` at `k`, a snapshot of the mapping
/// contains `k -> v`; and a second update of the same key to `v2` overwrites
/// the entry rather than accumulating, leaving the mapping as if only `v2`
/// had ever been written at `k`.
pub proof fn lemma_update_overwrites(m: Map<u8, u8>, k: u8, v: u8, v2: u8)
    ensures
        m.insert(k, v).contains_key(k),
        m.insert(k, v)[k] == v,
        m.insert(k, v).insert(k, v2) == m.insert(k, v2),
{
    assert(m.insert(k, v).insert(k, v2) =~= m.insert(k, v2));
}

/// Law: updates to distinct identifiers commute — whichever of two writers
/// acquires write access first, the mapping they leave behind is the same,
/// and both writes stay visible.
pub proof fn lemma_distinct_updates_commute(m: Map<u8, u8>, k1: u8, v1: u8, k2: u8, v2: u8)
    requires
        k1 != k2,
    ensures
        m.insert(k1, v1).insert(k2, v2) == m.insert(k2, v2).insert(k1, v1),
        m.insert(k1, v1).insert(k2, v2)[k1] == v1,
        m.insert(k1, v1).insert(k2, v2)[k2] == v2,
{
    assert(m.insert(k1, v1).insert(k2, v2) =~= m.insert(k2, v2).insert(k1, v1));
}

/// The mapping after a sequence of updates has been applied in order, each
/// write upserting its value at its key — exactly what a run of `update`
/// calls does to the store's view.
pub open spec fn apply_updates(m: Map<u8, u8>, writes: Seq<(u8, u8)>) -> Map<u8, u8>
    decreases writes.len(),
{
    if writes.len() == 0 {
        m
    } else {
        apply_updates(m.insert(writes[0].0, writes[0].1), writes.skip(1))
    }
}

/// A key that none of the writes touches keeps its binding.
pub proof fn lemma_apply_updates_untouched(m: Map<u8, u8>, writes: Seq<(u8, u8)>, k: u8)
    requires
        forall|i: int| 0 <= i < writes.len() ==> (#[trigger] writes[i]).0 != k,
    ensures
        apply_updates(m, writes).contains_key(k) == m.contains_key(k),
        m.contains_key(k) ==> apply_updates(m, writes)[k] == m[k],
    decreases writes.len(),
{
    if writes.len() > 0 {
        let m1 = m.insert(writes[0].0, writes[0].1);
        assert(forall|i: int|
            0 <= i < writes.skip(1).len() ==> (#[trigger] writes.skip(1)[i]) == writes[i + 1]);
        lemma_apply_updates_untouched(m1, writes.skip(1), k);
    }
}

/// Law: no lost updates. When the writes of a batch carry pairwise-distinct
/// identifiers — as with concurrent writers that each touch their own zone,
/// serialized in whatever order the write lock admits them — the mapping
/// afterwards reflects every single write.
pub proof fn lemma_no_lost_updates(m: Map<u8, u8>, writes: Seq<(u8, u8)>)
    requires
        forall|i: int, j: int|
            0 <= i < j < writes.len() ==> (#[trigger] writes[i]).0 != (#[trigger] writes[j]).0,
    ensures
        forall|i: int|
            0 <= i < writes.len() ==> apply_updates(m, writes).contains_key(
                (#[trigger] writes[i]).0,
            ) && apply_updates(m, writes)[writes[i].0] == writes[i].1,
    decreases writes.len(),
{
    if writes.len() > 0 {
        let m1 = m.insert(writes[0].0, writes[0].1);
        let rest = writes.skip(1);
        assert(forall|i: int| 0 <= i < rest.len() ==> (#[trigger] rest[i]) == writes[i + 1]);
        lemma_no_lost_updates(m1, rest);
        assert(forall|i: int| 0 <= i < rest.len() ==> (#[trigger] rest[i]).0 != writes[0].0);
        lemma_apply_updates_untouched(m1, rest, writes[0].0);
        assert(m1.contains_key(writes[0].0) && m1[writes[0].0] == writes[0].1);
        assert forall|i: int|
            0 <= i < writes.len() implies apply_updates(m, writes).contains_key(
            (#[trigger] writes[i]).0,
        ) && apply_updates(m, writes)[writes[i].0] == writes[i].1 by {
            if i > 0 {
                assert(rest[i - 1] == writes[i]);
                assert(apply_updates(m1, rest).contains_key(rest[i - 1].0));
            }
        }
    }
}

} // verus!
