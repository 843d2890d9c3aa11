//! Byte strings of fixed length: hashes, public keys and addresses.

use vstd::prelude::*;

use crate::text::{hex_bytes, is_hex_digit, lower_hex};

verus! {

/// A hash of 32 bytes.
#[derive(Debug, Clone, Copy, PartialEq, Eq)]
pub struct B256 {
    pub bytes: [u8; 32],
}

impl View for B256 {
    type V = Seq<u8>;

    open spec fn view(&self) -> Seq<u8> {
        self.bytes@
    }
}

impl B256 {
    /// The hash of 32 zero bytes.
    pub fn zero() -> (r: Self)
        ensures
            r@ == Seq::new(32, |i: int| 0u8),
    {
        let r = B256 { bytes: [0; 32] };
        assert(r@ =~= Seq::new(32, |i: int| 0u8));
        r
    }

    /// The hash as hexadecimal digits.
    ///
    /// Formats a `revm_primitives::B256` by `{:x}`, trusted to write two lower-case digits for
    /// each byte and no prefix.
    #[verifier::external_body]
    pub(crate) fn to_hex(&self) -> (r: String)
        ensures
            r@ == lower_hex(self@),
    {
        format!("{:x}", revm_primitives::B256::new(self.bytes))
    }

    /// The hash in SSZ, appended to `buf`.
    ///
    /// Calls `ssz_append` of `ssz::Encode` for `revm_primitives::B256`, trusted to append the 32
    /// bytes as they stand.
    #[verifier::external_body]
    pub(crate) fn ssz_append(&self, buf: &mut Vec<u8>)
        ensures
            final(buf)@ == old(buf)@ + self@,
    {
        ssz::Encode::ssz_append(&revm_primitives::B256::new(self.bytes), buf)
    }

    /// A hash from its 32 bytes in SSZ.
    ///
    /// Calls `from_ssz_bytes` of `ssz::Decode` for `revm_primitives::B256`, trusted to take 32
    /// bytes as they stand. Slices of another length, which it rejects, are not admitted here.
    #[verifier::external_body]
    pub(crate) fn from_ssz(bytes: &[u8]) -> (r: Self)
        requires
            bytes@.len() == 32,
        ensures
            r@ == bytes@,
    {
        B256 { bytes: <revm_primitives::B256 as ssz::Decode>::from_ssz_bytes(bytes).unwrap().0 }
    }
}

/// A BLS public key of 48 bytes.
#[derive(Debug, Clone, Copy, PartialEq, Eq)]
pub struct BlsPublicKey {
    pub bytes: [u8; 48],
}

impl View for BlsPublicKey {
    type V = Seq<u8>;

    open spec fn view(&self) -> Seq<u8> {
        self.bytes@
    }
}

impl BlsPublicKey {
    /// The key as hexadecimal digits.
    ///
    /// Formats an `alloy_rpc_types_beacon::BlsPublicKey` by `{:x}`, trusted to write two
    /// lower-case digits for each byte and no prefix.
    #[verifier::external_body]
    pub(crate) fn to_hex(&self) -> (r: String)
        ensures
            r@ == lower_hex(self@),
    {
        format!("{:x}", alloy_rpc_types_beacon::BlsPublicKey::new(self.bytes))
    }

    /// The key in SSZ, appended to `buf`.
    ///
    /// Calls `ssz_append` of `ssz::Encode` for `alloy_rpc_types_beacon::BlsPublicKey`, trusted to
    /// append the 48 bytes as they stand.
    #[verifier::external_body]
    pub(crate) fn ssz_append(&self, buf: &mut Vec<u8>)
        ensures
            final(buf)@ == old(buf)@ + self@,
    {
        ssz::Encode::ssz_append(&alloy_rpc_types_beacon::BlsPublicKey::new(self.bytes), buf)
    }

    /// A key from its 48 bytes in SSZ.
    ///
    /// Calls `from_ssz_bytes` of `ssz::Decode` for `alloy_rpc_types_beacon::BlsPublicKey`,
    /// trusted to take 48 bytes as they stand. Slices of another length, which it rejects, are
    /// not admitted here.
    #[verifier::external_body]
    pub(crate) fn from_ssz(bytes: &[u8]) -> (r: Self)
        requires
            bytes@.len() == 48,
        ensures
            r@ == bytes@,
    {
        BlsPublicKey {
            bytes: <alloy_rpc_types_beacon::BlsPublicKey as ssz::Decode>::from_ssz_bytes(bytes).unwrap().0,
        }
    }
}

/// An account address of 20 bytes.
#[derive(Debug, Clone, Copy, PartialEq, Eq)]
pub struct Address {
    pub bytes: [u8; 20],
}

impl View for Address {
    type V = Seq<u8>;

    open spec fn view(&self) -> Seq<u8> {
        self.bytes@
    }
}

impl Address {
    /// Whether the two addresses are the same.
    ///
    /// Calls `==` of `revm_primitives::Address`, trusted to compare the 20 bytes.
    #[verifier::external_body]
    pub(crate) fn same_as(&self, other: &Address) -> (r: bool)
        ensures
            r == (self@ == other@),
    {
        revm_primitives::Address::new(self.bytes) == revm_primitives::Address::new(other.bytes)
    }

    /// Reads an address from its 40 hexadecimal digits.
    ///
    /// Calls `from_str` of `revm_primitives::Address`, trusted to read 40 digits of either case
    /// as 20 bytes. Other strings (with a prefix, of another length or with other characters)
    /// are not admitted here.
    #[verifier::external_body]
    pub(crate) fn from_hex(s: &str) -> (r: Self)
        requires
            s@.len() == 40,
            forall|i: int| 0 <= i < s@.len() ==> is_hex_digit(#[trigger] s@[i]),
        ensures
            r@ == hex_bytes(s@),
    {
        Address { bytes: <revm_primitives::Address as std::str::FromStr>::from_str(s).unwrap().0.0 }
    }

    /// The address as hexadecimal digits.
    ///
    /// Formats a `revm_primitives::Address` by `{:x}`, trusted to write two lower-case digits for
    /// each byte and no prefix.
    #[verifier::external_body]
    pub(crate) fn to_hex(&self) -> (r: String)
        ensures
            r@ == lower_hex(self@),
    {
        format!("{:x}", revm_primitives::Address::new(self.bytes))
    }

    /// The address in SSZ, appended to `buf`.
    ///
    /// Calls `ssz_append` of `ssz::Encode` for `revm_primitives::Address`, trusted to append the
    /// 20 bytes as they stand.
    #[verifier::external_body]
    pub(crate) fn ssz_append(&self, buf: &mut Vec<u8>)
        ensures
            final(buf)@ == old(buf)@ + self@,
    {
        ssz::Encode::ssz_append(&revm_primitives::Address::new(self.bytes), buf)
    }

    /// An address from its 20 bytes in SSZ.
    ///
    /// Calls `from_ssz_bytes` of `ssz::Decode` for `revm_primitives::Address`, trusted to take 20
    /// bytes as they stand. Slices of another length, which it rejects, are not admitted here.
    #[verifier::external_body]
    pub(crate) fn from_ssz(bytes: &[u8]) -> (r: Self)
        requires
            bytes@.len() == 20,
        ensures
            r@ == bytes@,
    {
        Address { bytes: <revm_primitives::Address as ssz::Decode>::from_ssz_bytes(bytes).unwrap().0.0 }
    }
}

} // verus!
