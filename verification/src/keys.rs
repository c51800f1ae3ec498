//! Identities and the account data that the rules read.

use vstd::prelude::*;

verus! {

/// A 32-byte public key: the identity of an account or of its holder.
#[derive(Clone, Copy, Debug, PartialEq, Eq, Hash)]
pub struct Pubkey {
    pub bytes: [u8; 32],
}

impl View for Pubkey {
    type V = Seq<u8>;

    open spec fn view(&self) -> Seq<u8> {
        self.bytes@
    }
}

impl Pubkey {
    /// The key with the given bytes.
    pub fn new(bytes: [u8; 32]) -> (key: Pubkey)
        ensures
            key.bytes == bytes,
    {
        Pubkey { bytes }
    }

    /// The key whose bytes are all zero: the identity in a record that has never
    /// been written.
    pub open spec fn zero() -> Pubkey {
        Pubkey { bytes: vstd::array::spec_array_fill_for_copy_type::<u8, 32>(0u8) }
    }

    /// The key whose bytes are all zero.
    pub fn zeroed() -> (key: Pubkey)
        ensures
            key == Pubkey::zero(),
            forall|i: int| 0 <= i < 32 ==> key.bytes[i] == 0,
    {
        Pubkey { bytes: [0u8; 32] }
    }

    /// The bytes of the key.
    pub fn to_bytes(&self) -> (bytes: [u8; 32])
        ensures
            bytes == self.bytes,
    {
        self.bytes
    }

    /// Two keys are the same identity exactly when all 32 bytes agree.
    pub proof fn lemma_equal_by_bytes(a: Pubkey, b: Pubkey)
        ensures
            (a == b) <==> (forall|i: int| 0 <= i < 32 ==> a.bytes[i] == b.bytes[i]),
    {
        if forall|i: int| 0 <= i < 32 ==> a.bytes[i] == b.bytes[i] {
            assert(a.bytes =~= b.bytes);
        }
    }

    /// Whether `self` and `other` are the same key.
    pub fn equals(&self, other: &Pubkey) -> (same: bool)
        ensures
            same == (*self == *other),
    {
        let mut i: usize = 0;
        while i < 32
            invariant
                i <= 32,
                forall|j: int| 0 <= j < i ==> self.bytes[j] == other.bytes[j],
            decreases 32 - i,
        {
            if self.bytes[i] != other.bytes[i] {
                return false;
            }
            i += 1;
        }
        proof {
            Pubkey::lemma_equal_by_bytes(*self, *other);
        }
        true
    }
}

/// What the rules read of a token account: where it is, whose it is, which
/// asset it holds and how much.
#[derive(Clone, Copy, Debug, PartialEq, Eq)]
pub struct TokenAccount {
    pub key: Pubkey,
    pub owner: Pubkey,
    pub mint: Pubkey,
    pub amount: u64,
}

/// What the rules read of a mint.
#[derive(Clone, Copy, Debug, PartialEq, Eq)]
pub struct Mint {
    pub key: Pubkey,
    pub supply: u64,
    pub decimals: u8,
}

/// A movement of `amount` units between two token accounts, for the custody
/// service to carry out under the signature of `authority`.
#[derive(Clone, Copy, Debug, PartialEq, Eq)]
pub struct Transfer {
    pub from: Pubkey,
    pub to: Pubkey,
    pub authority: Pubkey,
    pub amount: u64,
}

} // verus!
