//! Finding the transaction of the builder in a block.

use vstd::prelude::*;

use crate::primitives::Address;
use crate::text::{hex_bytes, is_hex_digit};

verus! {

/// The address of the builder where none is given.
pub open spec fn default_builder() -> Seq<u8> {
    hex_bytes("1aE346CF7A3dFB2A841a7B7875374307b0Fc5f0B"@)
}

/// The address of the builder that is looked for.
pub open spec fn builder_or_default(builder: Option<Address>) -> Seq<u8> {
    match builder {
        Some(address) => address@,
        None => default_builder(),
    }
}

/// Whether one of `signers` is `builder`.
pub open spec fn signed_by(signers: Seq<Option<Address>>, builder: Seq<u8>) -> bool {
    exists|i: int| 0 <= i < signers.len() && is_signer(#[trigger] signers[i], builder)
}

/// Whether the signer of a transaction could be recovered and is `builder`.
pub open spec fn is_signer(signer: Option<Address>, builder: Seq<u8>) -> bool {
    signer matches Some(address) && address@ == builder
}

/// Looks for a transaction of `builder`, or of the default builder, among the transactions of a
/// block, whose signers are given in the order of the block, `None` for each that could not be
/// recovered.
///
/// Zero says that there is one, or that the block is empty; otherwise the result is the number
/// of transactions.
pub fn fast_find_builder_tx(builder: Option<Address>, signers: &Vec<Option<Address>>) -> (r: u32)
    requires
        signers@.len() <= u32::MAX,
    ensures
        r == (if signed_by(signers@, builder_or_default(builder)) {
            0
        } else {
            signers@.len() as int
        }),
        builder matches Some(wanted) ==> (r == 0 <==> signers@.len() == 0 || exists|i: int|
            0 <= i < signers@.len() && (#[trigger] signers@[i]) is Some && signers@[i]->0@
                == wanted@),
        r != 0 ==> r == signers@.len(),
{
    let wanted = match builder {
        Some(builder) => builder,
        None => {
            proof {
                reveal_strlit("1aE346CF7A3dFB2A841a7B7875374307b0Fc5f0B");
            }
            Address::from_hex("1aE346CF7A3dFB2A841a7B7875374307b0Fc5f0B")
        },
    };
    let mut builder_tx: u32 = 0;
    for i in 0..signers.len()
        invariant
            signers@.len() <= u32::MAX,
            builder_tx == i,
            wanted@ == builder_or_default(builder),
            forall|j: int| 0 <= j < i ==> !is_signer(#[trigger] signers@[j], wanted@),
    {
        builder_tx = i as u32 + 1;
        if let Some(tx_builder) = &signers[i] {
            if tx_builder.same_as(&wanted) {
                assert(is_signer(signers@[i as int], wanted@));
                return 0;
            }
        }
    }
    builder_tx
}

/// The default builder is the account `0x1ae346cf7a3dfb2a841a7b7875374307b0fc5f0b`.
pub proof fn default_builder_bytes()
    ensures
        default_builder() == seq![
            0x1au8, 0xe3, 0x46, 0xcf, 0x7a, 0x3d, 0xfb, 0x2a, 0x84, 0x1a, 0x7b, 0x78, 0x75, 0x37,
            0x43, 0x07, 0xb0, 0xfc, 0x5f, 0x0b,
        ],
{
    reveal_strlit("1aE346CF7A3dFB2A841a7B7875374307b0Fc5f0B");
    assert(default_builder() =~= seq![
        0x1au8, 0xe3, 0x46, 0xcf, 0x7a, 0x3d, 0xfb, 0x2a, 0x84, 0x1a, 0x7b, 0x78, 0x75, 0x37,
        0x43, 0x07, 0xb0, 0xfc, 0x5f, 0x0b,
    ]);
}

/// A transaction is one of the builder exactly if its signer was recovered and is that account;
/// one is enough, wherever it stands.
pub proof fn builder_is_found_by_its_account(signers: Seq<Option<Address>>, builder: Seq<u8>)
    ensures
        signed_by(signers, builder) <==> exists|i: int|
            0 <= i < signers.len() && (#[trigger] signers[i]) is Some && signers[i]->0@ == builder,
{
    if signed_by(signers, builder) {
        let i = choose|i: int| 0 <= i < signers.len() && is_signer(#[trigger] signers[i], builder);
        assert(signers[i] is Some && signers[i]->0@ == builder);
    }
    if exists|i: int|
        0 <= i < signers.len() && (#[trigger] signers[i]) is Some && signers[i]->0@ == builder {
        let i = choose|i: int|
            0 <= i < signers.len() && (#[trigger] signers[i]) is Some && signers[i]->0@ == builder;
        assert(is_signer(signers[i], builder));
    }
}

/// A builder that is given is the one that is looked for; otherwise it is the account
/// `0x1ae346cf7a3dfb2a841a7b7875374307b0fc5f0b`.
pub proof fn given_builder_comes_first(builder: Option<Address>)
    ensures
        builder matches Some(address) ==> builder_or_default(builder) == address@,
        builder is None ==> builder_or_default(builder) == seq![
            0x1au8, 0xe3, 0x46, 0xcf, 0x7a, 0x3d, 0xfb, 0x2a, 0x84, 0x1a, 0x7b, 0x78, 0x75, 0x37,
            0x43, 0x07, 0xb0, 0xfc, 0x5f, 0x0b,
        ],
{
    default_builder_bytes();
}

} // verus!
