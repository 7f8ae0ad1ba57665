//! The event account.
use vstd::prelude::*;
use vstd::utf8::encode_utf8;
use crate::cuentas::{EventSigner, Pubkey};

verus! {

/// The state of one event.
#[derive(Clone, Debug, PartialEq, Eq)]
pub struct Evento {
    /// The event's name; at most `NAME_MAX_LEN` bytes once encoded.
    pub name: String,
    /// The price of one ticket, in tokens of the accepted mint.
    pub ticket_price: u64,
    /// Whether tickets and sponsorships are still sold.
    pub open_sales: bool,
    /// The closing time: once the clock reaches it, sales are over;
    /// sponsorships and purchases are refused, and anyone may close the sales.
    pub timestamp_event_close: i64,
    /// The time before which tickets cost half.
    pub timestamp_presales_close: i64,
    /// The total of tokens that sponsors have paid.
    pub sponsor_ammount: u64,
    /// The account that created the event.
    pub authority: Pubkey,
    /// The mint that tickets and sponsorships are paid in.
    pub accepted_mint: Pubkey,
    pub event_bump: u8,
    pub event_mint_bump: u8,
    pub treasury_vault_bump: u8,
    pub gain_vault_bump: u8,
}

impl Evento {
    pub const SEED_EVENT: &'static str = "event";
    pub const SEED_EVENT_MINT: &'static str = "event-mint";
    pub const SEED_TREASURY_VAULT: &'static str = "treasury_vault";
    pub const SEED_GAIN_VAULT: &'static str = "gain_vault";

    /// The most bytes that the encoded name may take.
    pub const NAME_MAX_LEN: usize = 20;

    /// The bytes the event takes in its account, after the 8 bytes of the
    /// account's discriminator: the name with its 4-byte length, then the
    /// other fields at their sizes.
    pub const INIT_SPACE: usize = 4 + 20 + 8 + 1 + 8 + 8 + 8 + 32 + 32 + 1 + 1 + 1 + 1;

    /// Whether the encoded name fits the room kept for it.
    pub open spec fn name_fits(name: Seq<char>) -> bool {
        encode_utf8(name).len() <= Self::NAME_MAX_LEN
    }

    /// Whether the closing time is reached at time `now`.
    pub open spec fn closing_reached(&self, now: i64) -> bool {
        now >= self.timestamp_event_close
    }

    /// An event that its account can hold.
    pub open spec fn wf(&self) -> bool {
        Self::name_fits(self.name@)
    }

    /// The event account as it signs for itself.
    pub fn signer(&self) -> (s: EventSigner)
        ensures
            s.authority == self.authority,
            s.bump == self.event_bump,
    {
        EventSigner { authority: self.authority, bump: self.event_bump }
    }
}

impl Default for Evento {
    /// The event of a freshly made account: every field zero, the name empty.
    fn default() -> (e: Evento)
        ensures
            e.name@ == Seq::<char>::empty(),
            e.ticket_price == 0,
            !e.open_sales,
            e.timestamp_event_close == 0,
            e.timestamp_presales_close == 0,
            e.sponsor_ammount == 0,
            e.authority.bytes@ == Seq::new(32, |i: int| 0u8),
            e.accepted_mint.bytes@ == Seq::new(32, |i: int| 0u8),
            e.event_bump == 0,
            e.event_mint_bump == 0,
            e.treasury_vault_bump == 0,
            e.gain_vault_bump == 0,
    {
        let zero = Pubkey { bytes: [0u8; 32] };
        assert(zero.bytes@ =~= Seq::new(32, |i: int| 0u8));
        Evento {
            name: String::new(),
            ticket_price: 0,
            open_sales: false,
            timestamp_event_close: 0,
            timestamp_presales_close: 0,
            sponsor_ammount: 0,
            authority: zero,
            accepted_mint: zero,
            event_bump: 0,
            event_mint_bump: 0,
            treasury_vault_bump: 0,
            gain_vault_bump: 0,
        }
    }
}

} // verus!
