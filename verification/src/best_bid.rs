//! The bid to compete with.

use vstd::prelude::*;

use crate::text::{all_decimal_digits, decimal_value};
use crate::u256::U256;

verus! {

/// The highest bid to compete with, in wei.
pub open spec fn block_bid_limit() -> nat {
    1_000_000_000_000
}

/// The least of the bid of a block, the best bid of others and the limit.
pub open spec fn best_bid(block_bid: nat, other_best_bid: nat) -> nat {
    if block_bid <= other_best_bid && block_bid <= block_bid_limit() {
        block_bid
    } else if other_best_bid <= block_bid_limit() {
        other_best_bid
    } else {
        block_bid_limit()
    }
}

proof fn limit_digits()
    ensures
        all_decimal_digits("1000000000000"@),
        decimal_value("1000000000000"@) == block_bid_limit(),
{
    reveal_strlit("1000000000000");
    let s = "1000000000000"@;
    reveal_with_fuel(decimal_value, 14);
    assert(s.len() == 13);
}

/// The least of the bid of a block, the best bid of others and the limit.
pub fn best_bid_algo(block_bid: U256, other_best_bid: U256) -> (r: U256)
    ensures
        r@ == best_bid(block_bid@, other_best_bid@),
        r@ <= block_bid@,
        r@ <= other_best_bid@,
        r@ <= 1_000_000_000_000,
        r@ == block_bid@ || r@ == other_best_bid@ || r@ == 1_000_000_000_000,
{
    proof {
        limit_digits();
    }
    let block_bid_limit = U256::from_decimal("1000000000000");
    let block_bid = if block_bid.less_than(other_best_bid) {
        block_bid
    } else {
        other_best_bid
    };
    if block_bid.less_than(block_bid_limit) {
        block_bid
    } else {
        block_bid_limit
    }
}

/// The bid to compete with is above neither bid nor the limit, and it is one of the three.
pub proof fn best_bid_is_the_least(block_bid: nat, other_best_bid: nat)
    ensures
        best_bid(block_bid, other_best_bid) <= block_bid,
        best_bid(block_bid, other_best_bid) <= other_best_bid,
        best_bid(block_bid, other_best_bid) <= block_bid_limit(),
        best_bid(block_bid, other_best_bid) == block_bid || best_bid(block_bid, other_best_bid)
            == other_best_bid || best_bid(block_bid, other_best_bid) == block_bid_limit(),
        block_bid_limit() == 1_000_000_000_000,
{
}

/// Bids that are both below the limit are told apart by their order alone, and of a bid at or
/// above the limit only that is known.
pub proof fn best_bid_below_and_above_the_limit(block_bid: nat, other_best_bid: nat)
    ensures
        block_bid <= other_best_bid && block_bid <= 1_000_000_000_000 ==> best_bid(
            block_bid,
            other_best_bid,
        ) == block_bid,
        other_best_bid <= block_bid && other_best_bid <= 1_000_000_000_000 ==> best_bid(
            block_bid,
            other_best_bid,
        ) == other_best_bid,
        block_bid >= 1_000_000_000_000 && other_best_bid >= 1_000_000_000_000 ==> best_bid(
            block_bid,
            other_best_bid,
        ) == 1_000_000_000_000,
{
}

/// It does not matter which of the two bids is whose.
pub proof fn best_bid_is_symmetric(block_bid: nat, other_best_bid: nat)
    ensures
        best_bid(block_bid, other_best_bid) == best_bid(other_best_bid, block_bid),
{
}

/// A higher bid on either side never lowers the bid to compete with.
pub proof fn best_bid_is_monotone(a: nat, b: nat, x: nat, y: nat)
    requires
        a <= b,
        x <= y,
    ensures
        best_bid(a, x) <= best_bid(b, y),
{
}

} // verus!
