//! What a block is validated with.

use vstd::prelude::*;

use crate::primitives::B256;

verus! {

/// What a validation reads of the header of a block.
#[derive(Debug, Clone, Copy)]
pub struct BlockRoots {
    pub withdrawals_root: Option<B256>,
    pub parent_beacon_block_root: Option<B256>,
}

/// What a submission is validated with.
#[derive(Debug, Clone, Copy)]
pub struct ValidationRequest {
    pub registered_gas_limit: u64,
    pub withdrawals_root: B256,
    pub parent_beacon_block_root: Option<B256>,
}

/// What the submission of a block is validated with: the gas limit that is suggested for the
/// slot, and the roots of the block, where 32 zero bytes stand for a missing root of the
/// withdrawals.
pub fn validate_block(suggested_gas_limit: u64, block: BlockRoots) -> (r: ValidationRequest)
    ensures
        r.registered_gas_limit == suggested_gas_limit,
        r.withdrawals_root@ == (match block.withdrawals_root {
            Some(root) => root@,
            None => Seq::new(32, |i: int| 0u8),
        }),
        r.parent_beacon_block_root == block.parent_beacon_block_root,
{
    ValidationRequest {
        registered_gas_limit: suggested_gas_limit,
        withdrawals_root: match block.withdrawals_root {
            Some(root) => root,
            None => B256::zero(),
        },
        parent_beacon_block_root: block.parent_beacon_block_root,
    }
}

} // verus!
