//! Purchase of tickets, at half price during the presale.
use vstd::prelude::*;
use crate::collections::Evento;
use crate::cuentas::{Clock, Pubkey, TokenAccount, TokenInstruction};
use crate::utils::errors::{ErrorCode, InstructionError};

verus! {

/// The accounts of a purchase, as far as the instruction reads them.
#[derive(Clone, Debug, PartialEq, Eq)]
pub struct ComprarTickets {
    pub evento: Evento,
    /// The address of the event account.
    pub evento_key: Pubkey,
    /// The buyer's account of the accepted mint, which pays.
    pub payer_accepted_mint_ata: TokenAccount,
    /// The event's account that ticket sales are paid into.
    pub gain_vault: Pubkey,
    /// The buyer, who signs.
    pub authority: Pubkey,
    pub clock: Clock,
}

impl ComprarTickets {
    /// The same accounts with another event.
    pub open spec fn with_evento(self, evento: Evento) -> ComprarTickets {
        ComprarTickets { evento, ..self }
    }

    /// What the checks on the accounts answer: sales must be open, and the
    /// paying account must hold the accepted mint and not be empty.
    pub open spec fn constraints(self) -> Result<(), InstructionError> {
        if !self.evento.open_sales {
            Err(InstructionError::Custom(ErrorCode::EventoCerrado))
        } else if self.payer_accepted_mint_ata.mint != self.evento.accepted_mint {
            Err(InstructionError::Custom(ErrorCode::MintNoCoincide))
        } else if self.payer_accepted_mint_ata.amount == 0 {
            Err(InstructionError::Custom(ErrorCode::FondosInsuficientes))
        } else {
            Ok(())
        }
    }

    /// Whether the closing time of the event is reached.
    pub open spec fn past_close(self) -> bool {
        self.evento.closing_reached(self.clock.unix_timestamp)
    }

    /// Checks the accounts, in the order they are declared.
    pub fn validate(&self) -> (r: Result<(), InstructionError>)
        ensures
            r == self.constraints(),
    {
        if !self.evento.open_sales {
            return Err(InstructionError::Custom(ErrorCode::EventoCerrado));
        }
        if !self.payer_accepted_mint_ata.mint.equals(&self.evento.accepted_mint) {
            return Err(InstructionError::Custom(ErrorCode::MintNoCoincide));
        }
        if self.payer_accepted_mint_ata.amount == 0 {
            return Err(InstructionError::Custom(ErrorCode::FondosInsuficientes));
        }
        Ok(())
    }
}

/// What `quantity` tickets at `price` cost at time `now`: the full price,
/// or before the end of the presale half of it, rounded down but never
/// less than one token.
pub open spec fn ticket_charge(price: u64, quantity: u64, now: i64, presales_close: i64) -> int {
    let full = price * quantity;
    if now < presales_close {
        if full / 2 == 0 { 1 } else { full / 2 }
    } else {
        full
    }
}

/// The price `quantity` tickets cost, as the purchase computes it.
pub fn charge(price: u64, quantity: u64, now: i64, presales_close: i64) -> (amount: u64)
    requires
        price * quantity <= u64::MAX,
    ensures
        amount == ticket_charge(price, quantity, now, presales_close),
{
    let mut amount = price * quantity;
    if now < presales_close {
        let temp_amount = amount / 2;
        if temp_amount == 0 {
            amount = 1;
        } else {
            amount = temp_amount;
        }
    }
    amount
}

/// The token operation of a purchase of `quantity` tickets: the charge,
/// from the buyer's account into the gain vault, on the buyer's word.
pub open spec fn purchase_operations(ctx: ComprarTickets, quantity: u64) -> Seq<TokenInstruction> {
    seq![
        TokenInstruction::Transfer {
            from: ctx.payer_accepted_mint_ata.key,
            to: ctx.gain_vault,
            authority: ctx.authority,
            amount: ticket_charge(
                ctx.evento.ticket_price,
                quantity,
                ctx.clock.unix_timestamp,
                ctx.evento.timestamp_presales_close,
            ) as u64,
            signer: None,
        },
    ]
}

/// Charges the buyer for `quantity` tickets, paid from the buyer's account
/// into the event's gain vault; the event itself is not written.
pub fn handle(ctx: &mut ComprarTickets, quantity: u64) -> (ops: Vec<TokenInstruction>)
    requires
        old(ctx).evento.ticket_price * quantity <= u64::MAX,
    ensures
        *final(ctx) == *old(ctx),
        ops@ == seq![
            TokenInstruction::Transfer {
                from: old(ctx).payer_accepted_mint_ata.key,
                to: old(ctx).gain_vault,
                authority: old(ctx).authority,
                amount: ticket_charge(
                    old(ctx).evento.ticket_price,
                    quantity,
                    old(ctx).clock.unix_timestamp,
                    old(ctx).evento.timestamp_presales_close,
                ) as u64,
                signer: None,
            },
        ],
        ops@ == purchase_operations(*old(ctx), quantity),
{
    let amount = charge(
        ctx.evento.ticket_price,
        quantity,
        ctx.clock.unix_timestamp,
        ctx.evento.timestamp_presales_close,
    );
    let mut ops: Vec<TokenInstruction> = Vec::new();
    ops.push(
        TokenInstruction::Transfer {
            from: ctx.payer_accepted_mint_ata.key,
            to: ctx.gain_vault,
            authority: ctx.authority,
            amount,
            signer: None,
        },
    );
    assert(ops@ =~= seq![
        TokenInstruction::Transfer {
            from: old(ctx).payer_accepted_mint_ata.key,
            to: old(ctx).gain_vault,
            authority: old(ctx).authority,
            amount: ticket_charge(
                old(ctx).evento.ticket_price,
                quantity,
                old(ctx).clock.unix_timestamp,
                old(ctx).evento.timestamp_presales_close,
            ) as u64,
            signer: None,
        },
    ]);
    ops
}

/// During the presale a purchase never costs more than at full price,
/// unless the full price is nothing, and it always costs at least one token.
pub proof fn lemma_presale_discount(price: u64, quantity: u64, now: i64, presales_close: i64)
    requires
        now < presales_close,
    ensures
        ticket_charge(price, quantity, now, presales_close) >= 1,
        price * quantity >= 1 ==> ticket_charge(price, quantity, now, presales_close) <= price * quantity,
        ticket_charge(price, quantity, now, presales_close) * 2 <= price * quantity + 2,
{
    assert(price * quantity >= 0) by (nonlinear_arith);
}

/// Outside the presale a purchase costs the ticket price times the quantity.
pub proof fn lemma_full_price(price: u64, quantity: u64, now: i64, presales_close: i64)
    requires
        now >= presales_close,
    ensures
        ticket_charge(price, quantity, now, presales_close) == price * quantity,
{
}

} // verus!
