//! Plain-value models of the accounts that the instructions read, and of the
//! token operations that they ask for.
use vstd::prelude::*;

verus! {

/// A 32-byte account address.
#[derive(Clone, Copy, Debug, PartialEq, Eq)]
pub struct Pubkey {
    pub bytes: [u8; 32],
}

impl Pubkey {
    /// The address made of the given bytes.
    pub fn new_from_array(bytes: [u8; 32]) -> (key: Pubkey)
        ensures
            key.bytes == bytes,
    {
        Pubkey { bytes }
    }

    /// The bytes of the address.
    pub fn to_bytes(&self) -> (bytes: [u8; 32])
        ensures
            bytes == self.bytes,
    {
        self.bytes
    }

    /// Whether two addresses are the same, byte for byte.
    pub fn equals(&self, other: &Pubkey) -> (same: bool)
        ensures
            same == (*self == *other),
    {
        let mut i: usize = 0;
        while i < 32
            invariant
                0 <= i <= 32,
                forall|j: int| 0 <= j < i ==> self.bytes[j] == other.bytes[j],
            decreases 32 - i,
        {
            if self.bytes[i] != other.bytes[i] {
                return false;
            }
            i = i + 1;
        }
        assert(self.bytes =~= other.bytes);
        true
    }
}

} // verus!

verus! {

/// The cluster time that an instruction runs at.
#[derive(Clone, Copy, Debug, PartialEq, Eq)]
pub struct Clock {
    /// Seconds since the Unix epoch.
    pub unix_timestamp: i64,
}

/// What the instructions read of a token account.
#[derive(Clone, Copy, Debug, PartialEq, Eq)]
pub struct TokenAccount {
    /// The address of the token account.
    pub key: Pubkey,
    /// The mint whose tokens the account holds.
    pub mint: Pubkey,
    /// The owner of the account.
    pub owner: Pubkey,
    /// The number of tokens the account holds.
    pub amount: u64,
}

/// The bytes of the seed that event addresses are derived from: `event`.
pub open spec fn seed_event_bytes() -> Seq<u8> {
    seq![101u8, 118u8, 101u8, 110u8, 116u8]
}

/// The event account signing for itself: the address it was derived from
/// is fixed by its authority and its bump.
#[derive(Clone, Copy, Debug, PartialEq, Eq)]
pub struct EventSigner {
    pub authority: Pubkey,
    pub bump: u8,
}

impl EventSigner {
    /// The seeds the event account signs with: the event seed, the
    /// authority's address and the bump, in this order.
    pub fn seeds(&self) -> (seeds: Vec<Vec<u8>>)
        ensures
            seeds@.len() == 3,
            seeds@[0]@ == seed_event_bytes(),
            seeds@[1]@ == self.authority.bytes@,
            seeds@[2]@ == seq![self.bump],
    {
        let seed: Vec<u8> = vec![101u8, 118u8, 101u8, 110u8, 116u8];
        let mut authority: Vec<u8> = Vec::new();
        let mut i: usize = 0;
        while i < 32
            invariant
                0 <= i <= 32,
                authority@ == self.authority.bytes@.take(i as int),
            decreases 32 - i,
        {
            authority.push(self.authority.bytes[i]);
            assert(self.authority.bytes@.take(i as int).push(self.authority.bytes[i as int])
                =~= self.authority.bytes@.take(i + 1));
            i = i + 1;
        }
        assert(authority@ =~= self.authority.bytes@);
        let bump: Vec<u8> = vec![self.bump];
        assert(seed@ =~= seed_event_bytes());
        assert(bump@ =~= seq![self.bump]);
        vec![seed, authority, bump]
    }
}

/// A token operation that an instruction asks for.
#[derive(Clone, Copy, Debug, PartialEq, Eq)]
pub enum TokenInstruction {
    /// Move `amount` tokens from `from` to `to`, on the word of `authority`.
    Transfer {
        from: Pubkey,
        to: Pubkey,
        authority: Pubkey,
        amount: u64,
        signer: Option<EventSigner>,
    },
    /// Create `amount` tokens of `mint` into `to`, on the word of `authority`.
    MintTo {
        mint: Pubkey,
        to: Pubkey,
        authority: Pubkey,
        amount: u64,
        signer: Option<EventSigner>,
    },
}

} // verus!
