//! What is reported about the blocks of a slot.

use vstd::prelude::*;

use crate::submit_job::BuiltBlockInfo;
use crate::u256::U256;

verus! {

/// The kind of an order in a block.
#[derive(Debug, Clone, Copy, PartialEq, Eq, Structural)]
pub enum OrderKind {
    Tx,
    Bundle,
    ShareBundle,
}

/// How many of some orders are no single transactions.
pub open spec fn bundles(orders: Seq<OrderKind>) -> nat {
    orders.filter(|order: OrderKind| order != OrderKind::Tx).len()
}

/// How many of the orders of a block are no single transactions.
pub fn count_bundles(orders: &Vec<OrderKind>) -> (r: usize)
    ensures
        r == bundles(orders@),
{
    let mut count: usize = 0;
    assert(orders@.take(0).filter(|order: OrderKind| order != OrderKind::Tx).len() == 0) by {
        reveal(Seq::filter);
    }
    for i in 0..orders.len()
        invariant
            count == bundles(orders@.take(i as int)),
            count <= i,
    {
        proof {
            reveal(Seq::filter);
            assert(orders@.take(i + 1).drop_last() =~= orders@.take(i as int));
        }
        if orders[i] != OrderKind::Tx {
            count = count + 1;
        }
    }
    assert(orders@.take(orders@.len() as int) =~= orders@);
    count
}

/// A bid above what its block earns.
#[derive(Debug, Clone, Copy, PartialEq, Eq, Structural)]
pub struct Subsidy {
    /// By how much the bid is above what the block earns.
    pub value: U256,
    /// Whether the block has landed on the chain.
    pub landed: bool,
}

/// What is reported about the best bid of a slot, once its job is over: the subsidy, where the
/// bid was above what the block earns.
pub fn run_submit_to_relays_job_and_metrics(best_bid: Option<BuiltBlockInfo>) -> (r: Option<
    Subsidy,
>)
    ensures
        r is Some <==> best_bid is Some && best_bid->0.bid_value@ > best_bid->0.true_bid_value@,
        r matches Some(subsidy) ==> !subsidy.landed && subsidy.value@ == best_bid->0.bid_value@
            - best_bid->0.true_bid_value@,
{
    match best_bid {
        Some(best_bid) => {
            if best_bid.true_bid_value.less_than(best_bid.bid_value) {
                Some(
                    Subsidy {
                        value: best_bid.bid_value.minus(best_bid.true_bid_value),
                        landed: false,
                    },
                )
            } else {
                None
            }
        },
        None => None,
    }
}

/// Every order that is no single transaction counts once, bundles of either kind alike, and
/// single transactions do not count.
pub proof fn bundles_are_counted_one_by_one(orders: Seq<OrderKind>, order: OrderKind)
    ensures
        bundles(Seq::empty()) == 0,
        bundles(orders.push(order)) == bundles(orders) + (match order {
            OrderKind::Tx => 0nat,
            OrderKind::Bundle => 1,
            OrderKind::ShareBundle => 1,
        }),
{
    reveal(Seq::filter);
    assert(orders.push(order).drop_last() =~= orders);
}

} // verus!
