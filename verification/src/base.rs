//! Plain-value models of the protocol's basic identifiers: account and
//! contract addresses, timestamps, and the byte forms of ed25519 keys and
//! signatures.

use vstd::prelude::*;

verus! {

/// A voter's account address: an opaque 32-byte identifier.
#[derive(Clone, Copy)]
pub struct AccountAddress(pub [u8; 32]);

impl View for AccountAddress {
    type V = Seq<u8>;

    open spec fn view(&self) -> Seq<u8> {
        self.0@
    }
}

impl AccountAddress {
    /// Byte-for-byte equality of two account addresses.
    pub fn matches(&self, other: &AccountAddress) -> (r: bool)
        ensures
            r == (self@ == other@),
    {
        let mut i: usize = 0;
        while i < 32
            invariant
                i <= 32,
                forall|j: int| 0 <= j < i ==> self.0@[j] == other.0@[j],
            decreases 32 - i,
        {
            if self.0[i] != other.0[i] {
                assert(self@ != other@);
                return false;
            }
            i += 1;
        }
        assert(self@ =~= other@);
        true
    }
}

/// The address of an on-chain program instance.
#[derive(Clone, Copy)]
pub struct ContractAddress {
    pub index: u64,
    pub subindex: u64,
}

/// The sender of an on-chain call: either an account or another program.
#[derive(Clone, Copy)]
pub enum Address {
    Account(AccountAddress),
    Contract(ContractAddress),
}

/// A point in time, in milliseconds since the unix epoch.
#[derive(Clone, Copy, PartialEq, Eq, Structural)]
pub struct Timestamp {
    pub millis: u64,
}

impl Timestamp {
    pub fn from_timestamp_millis(millis: u64) -> (r: Timestamp)
        ensures
            r.millis == millis,
    {
        Timestamp { millis }
    }

    pub fn timestamp_millis(&self) -> (r: u64)
        ensures
            r == self.millis,
    {
        self.millis
    }
}

/// A 64-byte ed25519 signature.
#[derive(Clone, Copy)]
pub struct SignatureEd25519(pub [u8; 64]);

impl View for SignatureEd25519 {
    type V = Seq<u8>;

    open spec fn view(&self) -> Seq<u8> {
        self.0@
    }
}

/// The 32-byte form of an ed25519 public key.
#[derive(Clone, Copy)]
pub struct PublicKeyEd25519(pub [u8; 32]);

impl View for PublicKeyEd25519 {
    type V = Seq<u8>;

    open spec fn view(&self) -> Seq<u8> {
        self.0@
    }
}

/// The 32-byte seed form of an ed25519 secret key.
#[derive(Clone, Copy)]
pub struct SecretKeyEd25519(pub [u8; 32]);

impl View for SecretKeyEd25519 {
    type V = Seq<u8>;

    open spec fn view(&self) -> Seq<u8> {
        self.0@
    }
}

} // verus!
