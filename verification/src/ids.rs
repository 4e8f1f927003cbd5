//! Identifier sequences: what both contracts share about handing out
//! identifiers and finding a record again by the one it carries.

use vstd::prelude::*;

verus! {

/// `i` is the first position of `ids` that holds `id`.
pub open spec fn is_first(ids: Seq<nat>, id: nat, i: int) -> bool {
    &&& 0 <= i < ids.len()
    &&& ids[i] == id
    &&& forall|j: int| 0 <= j < i ==> ids[j] != id
}

/// The first position of `ids` that holds `id`; meaningful where `ids`
/// contains `id`.
pub open spec fn first_position(ids: Seq<nat>, id: nat) -> int {
    choose|i: int| is_first(ids, id, i)
}

/// The identifiers are 1, 2, 3, ... in this order: position `i` holds `i + 1`.
pub open spec fn counts_from_one(ids: Seq<nat>) -> bool {
    forall|i: int| 0 <= i < ids.len() ==> ids[i] == i + 1
}

proof fn lemma_some_first(ids: Seq<nat>, id: nat, k: int)
    requires
        0 <= k < ids.len(),
        ids[k] == id,
    ensures
        exists|i: int| is_first(ids, id, i),
    decreases k,
{
    if exists|j: int| 0 <= j < k && ids[j] == id {
        let j = choose|j: int| 0 <= j < k && ids[j] == id;
        lemma_some_first(ids, id, j);
    } else {
        assert(is_first(ids, id, k));
    }
}

/// An identifier that occurs has a first position, and no position but
/// that one is first.
pub proof fn lemma_first_position(ids: Seq<nat>, id: nat)
    ensures
        ids.contains(id) ==> is_first(ids, id, first_position(ids, id)),
        forall|i: int| is_first(ids, id, i) ==> ids.contains(id) && i == first_position(ids, id),
{
    if ids.contains(id) {
        let k = choose|i: int| 0 <= i < ids.len() && ids[i] == id;
        lemma_some_first(ids, id, k);
    }
    assert forall|i: int| is_first(ids, id, i) implies ids.contains(id) && i == first_position(
        ids,
        id,
    ) by {
        let f = first_position(ids, id);
        assert(is_first(ids, id, f));
        if f < i {
            assert(ids[f] != id);
        } else if i < f {
            assert(ids[i] != id);
        }
    }
}

/// Where the identifiers count up from one, an identifier occurs exactly
/// when it lies between one and the length, and it stands one position
/// below its own value.
pub proof fn lemma_position_when_counting(ids: Seq<nat>, id: nat)
    requires
        counts_from_one(ids),
    ensures
        ids.contains(id) <==> 1 <= id <= ids.len(),
        ids.contains(id) ==> first_position(ids, id) == id - 1,
{
    if 1 <= id <= ids.len() {
        assert(ids[id - 1] == id);
        assert(is_first(ids, id, id - 1));
    }
    lemma_first_position(ids, id);
}

/// Each identifier is larger than those before it.
pub open spec fn increasing(ids: Seq<nat>) -> bool {
    forall|i: int, j: int| 0 <= i < j < ids.len() ==> ids[i] < ids[j]
}

/// Identifiers that count up from one are increasing.
pub proof fn lemma_counting_increases(ids: Seq<nat>)
    requires
        counts_from_one(ids),
    ensures
        increasing(ids),
{
}

/// Keeping some records of a sequence keeps them in their order: where the
/// identifiers of the records increase, so do those of the records kept.
pub proof fn lemma_filter_keeps_order<T>(
    records: Seq<T>,
    keep: spec_fn(T) -> bool,
    id_of: spec_fn(T) -> nat,
)
    requires
        increasing(records.map_values(id_of)),
    ensures
        increasing(records.filter(keep).map_values(id_of)),
    decreases records.len(),
{
    reveal(Seq::filter);
    if records.len() > 0 {
        let earlier = records.drop_last();
        let last = records.last();
        assert forall|i: int, j: int| 0 <= i < j < earlier.len() implies earlier.map_values(
            id_of,
        )[i] < earlier.map_values(id_of)[j] by {
            assert(records.map_values(id_of)[i] < records.map_values(id_of)[j]);
        }
        lemma_filter_keeps_order(earlier, keep, id_of);
        if keep(last) {
            let kept = earlier.filter(keep);
            assert forall|i: int, j: int| 0 <= i < j < kept.push(last).len() implies kept.push(
                last,
            ).map_values(id_of)[i] < kept.push(last).map_values(id_of)[j] by {
                if j < kept.len() {
                    assert(kept.map_values(id_of)[i] < kept.map_values(id_of)[j]);
                } else {
                    assert(kept.contains(kept[i]));
                    earlier.lemma_filter_contains_rev(keep, kept[i]);
                    let k = choose|k: int| 0 <= k < earlier.len() && earlier[k] == kept[i];
                    assert(records.map_values(id_of)[k] < records.map_values(id_of)[records.len()
                        - 1]);
                }
            }
        }
    }
}

} // verus!
