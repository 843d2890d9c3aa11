//! The relays that blocks can be submitted to.

use vstd::prelude::*;

verus! {

/// The name by which a relay is known.
pub type MevBoostRelayID = String;

/// A relay that blocks can be submitted to.
#[derive(Debug)]
pub struct MevBoostRelay {
    pub id: MevBoostRelayID,
    /// Whether the relay takes optimistic submissions.
    pub optimistic: bool,
}

impl Clone for MevBoostRelay {
    fn clone(&self) -> (r: Self)
        ensures
            r == *self,
    {
        MevBoostRelay { id: self.id.clone(), optimistic: self.optimistic }
    }
}

/// The positions of the relays that are optimistic, or of those that are not, in their order.
pub open spec fn positions(relays: Seq<MevBoostRelay>, optimistic: bool) -> Seq<usize>
    decreases relays.len(),
{
    if relays.len() == 0 {
        Seq::empty()
    } else {
        let before = positions(relays.drop_last(), optimistic);
        if relays.last().optimistic == optimistic {
            before.push((relays.len() - 1) as usize)
        } else {
            before
        }
    }
}

/// Divides relays into those that are not optimistic and those that are, by their positions.
pub fn divide_relays(relays: &Vec<MevBoostRelay>) -> (r: (Vec<usize>, Vec<usize>))
    ensures
        r.0@ == positions(relays@, false),
        r.1@ == positions(relays@, true),
{
    let mut normal_relays: Vec<usize> = Vec::new();
    let mut optimistic_relays: Vec<usize> = Vec::new();
    for i in 0..relays.len()
        invariant
            normal_relays@ == positions(relays@.take(i as int), false),
            optimistic_relays@ == positions(relays@.take(i as int), true),
    {
        assert(relays@.take(i + 1).drop_last() =~= relays@.take(i as int));
        if relays[i].optimistic {
            optimistic_relays.push(i);
        } else {
            normal_relays.push(i);
        }
    }
    assert(relays@.take(relays@.len() as int) =~= relays@);
    (normal_relays, optimistic_relays)
}

/// A position stands in one of the two lists exactly if it is that of a relay of that kind, and
/// no list holds a position twice: every relay stands in exactly one list, once.
pub proof fn relays_are_divided(relays: Seq<MevBoostRelay>, optimistic: bool)
    requires
        relays.len() <= usize::MAX,
    ensures
        forall|p: usize|
            #[trigger] positions(relays, optimistic).contains(p) <==> p < relays.len()
                && relays[p as int].optimistic == optimistic,
        positions(relays, optimistic).no_duplicates(),
    decreases relays.len(),
{
    let all = positions(relays, optimistic);
    if relays.len() > 0 {
        let rest = relays.drop_last();
        let before = positions(rest, optimistic);
        let last = (relays.len() - 1) as usize;
        relays_are_divided(rest, optimistic);
        assert(!before.contains(last));
        assert forall|p: usize| #[trigger] all.contains(p) <==> p < relays.len()
            && relays[p as int].optimistic == optimistic by {
            if before.contains(p) {
                let i = choose|i: int| 0 <= i < before.len() && before[i] == p;
                assert(all[i] == p);
            }
            if p == last && relays.last().optimistic == optimistic {
                assert(all[all.len() - 1] == p);
            }
            if all.contains(p) {
                let i = choose|i: int| 0 <= i < all.len() && all[i] == p;
                if i < before.len() {
                    assert(before[i] == p);
                }
            }
            if p < relays.len() && p != last {
                assert(rest[p as int] == relays[p as int]);
            }
        }
        assert forall|i: int, j: int| 0 <= i < all.len() && 0 <= j < all.len() && i != j implies all[i]
            != all[j] by {
            if i < before.len() && j < before.len() {
                assert(before[i] != before[j]);
            } else if i < before.len() {
                assert(before.contains(before[i]));
            } else if j < before.len() {
                assert(before.contains(before[j]));
            }
        }
    }
}

/// The positions of each kind stand in the order of the relays.
pub proof fn positions_ascend(relays: Seq<MevBoostRelay>, optimistic: bool)
    requires
        relays.len() <= usize::MAX,
    ensures
        forall|i: int, j: int|
            0 <= i < j < positions(relays, optimistic).len() ==> #[trigger] positions(
                relays,
                optimistic,
            )[i] < #[trigger] positions(relays, optimistic)[j],
    decreases relays.len(),
{
    if relays.len() > 0 {
        let rest = relays.drop_last();
        let before = positions(rest, optimistic);
        positions_ascend(rest, optimistic);
        relays_are_divided(rest, optimistic);
        assert forall|i: int| 0 <= i < before.len() implies #[trigger] before[i] < rest.len() by {
            assert(before.contains(before[i]));
        }
    }
}

} // verus!
