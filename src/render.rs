use vstd::prelude::*;

verus! {

/// The tags of `tagged`, in order.
pub open spec fn tags_of<T>(tagged: Seq<(usize, T)>) -> Seq<usize> {
    tagged.map_values(|p: (usize, T)| p.0)
}

/// `tags` names every position `0..n` exactly once.
pub open spec fn is_index_permutation(tags: Seq<usize>, n: nat) -> bool {
    &&& tags.len() == n
    &&& forall|m: int| 0 <= m < tags.len() ==> tags[m] < n
    &&& forall|m1: int, m2: int|
        0 <= m1 < tags.len() && 0 <= m2 < tags.len() && tags[m1] == tags[m2] ==> m1 == m2
    &&& forall|j: usize| j < n ==> #[trigger] tags.contains(j)
}

/// Puts results that were computed out of order back in order: each item of
/// `tagged` carries the position it belongs at. When the tags name every
/// position `0..len` exactly once the result holds each value at its
/// position; otherwise there is no result.
pub fn reassemble<T>(len: usize, tagged: Vec<(usize, T)>) -> (r: Option<Vec<T>>)
    ensures
        r.is_some() <==> is_index_permutation(tags_of(tagged@), len as nat),
        r matches Some(v) ==> v@.len() == len && forall|m: int|
            0 <= m < tagged@.len() ==> v@[#[trigger] tagged@[m].0 as int] == tagged@[m].1,
{
    let ghost orig = tagged@;
    let ghost tags = tags_of(orig);
    if tagged.len() != len {
        return None;
    }
    let mut slots: Vec<Option<T>> = Vec::new();
    while slots.len() < len
        invariant
            slots@.len() <= len,
            forall|j: int| 0 <= j < slots@.len() ==> slots@[j] is None,
        decreases len - slots@.len(),
    {
        slots.push(None);
    }
    let mut rest = tagged;
    while rest.len() > 0
        invariant
            orig == tagged@,
            orig.len() == len,
            tags == tags_of(orig),
            rest@.len() <= len,
            rest@ == orig.subrange(0, rest@.len() as int),
            slots@.len() == len,
            forall|m: int| rest@.len() <= m < len ==> #[trigger] tags[m] < len,
            forall|m: int|
                rest@.len() <= m < len ==> slots@[#[trigger] tags[m] as int] == Some(orig[m].1),
            forall|m1: int, m2: int|
                rest@.len() <= m1 < len && rest@.len() <= m2 < len && #[trigger] tags[m1]
                    == #[trigger] tags[m2] ==> m1 == m2,
            forall|j: int|
                0 <= j < len && #[trigger] slots@[j] is Some ==> exists|m: int|
                    rest@.len() <= m < len && tags[m] == j,
        decreases rest@.len(),
    {
        let ghost k = rest@.len() - 1;
        let ghost before = rest@;
        let (i, v) = rest.pop().unwrap();
        proof {
            assert(before[k] == orig[k]);
            assert(tags[k] == i);
            assert(orig[k].1 == v);
        }
        if i >= len {
            assert(!is_index_permutation(tags, len as nat));
            return None;
        }
        if slots[i].is_some() {
            proof {
                let m = choose|m: int| rest@.len() + 1 <= m < len && tags[m] == i;
                assert(tags[m] == tags[k]);
            }
            assert(!is_index_permutation(tags, len as nat));
            return None;
        }
        let mut item = Some(v);
        slots.set_and_swap(i, &mut item);
    }
    let mut out: Vec<T> = Vec::new();
    let ghost filled = slots@;
    while out.len() < len
        invariant
            orig == tagged@,
            orig.len() == len,
            tags == tags_of(orig),
            slots@.len() == len,
            filled.len() == len,
            out@.len() <= len,
            forall|m: int| 0 <= m < len ==> #[trigger] tags[m] < len,
            forall|m: int| 0 <= m < len ==> filled[#[trigger] tags[m] as int] == Some(orig[m].1),
            forall|m1: int, m2: int|
                0 <= m1 < len && 0 <= m2 < len && #[trigger] tags[m1] == #[trigger] tags[m2]
                    ==> m1 == m2,
            forall|j: int|
                0 <= j < len && #[trigger] filled[j] is Some ==> exists|m: int|
                    0 <= m < len && tags[m] == j,
            forall|j: int| out@.len() <= j < len ==> slots@[j] == filled[j],
            forall|j: int| 0 <= j < out@.len() ==> filled[j] is Some,
            forall|j: int| 0 <= j < out@.len() ==> filled[j] == Some(#[trigger] out@[j]),
        decreases len - out@.len(),
    {
        let j = out.len();
        let mut item: Option<T> = None;
        slots.set_and_swap(j, &mut item);
        match item {
            Some(v) => out.push(v),
            None => {
                assert(!tags.contains(j));
                assert(!is_index_permutation(tags, len as nat));
                return None;
            },
        }
    }
    proof {
        assert forall|j: usize| j < len implies #[trigger] tags.contains(j) by {
            assert(filled[j as int] is Some);
        }
        assert forall|m: int| 0 <= m < len implies out@[#[trigger] orig[m].0 as int]
            == orig[m].1 by {
            assert(tags[m] == orig[m].0);
            assert(filled[tags[m] as int] == Some(orig[m].1));
        }
    }
    Some(out)
}

} // verus!
