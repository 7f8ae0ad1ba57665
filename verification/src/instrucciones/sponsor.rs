//! Sponsorship of an event: the sponsor pays tokens of the accepted mint into
//! the treasury and gets as many of the event's own tokens.
use vstd::prelude::*;
use crate::collections::Evento;
use crate::cuentas::{Clock, EventSigner, Pubkey, TokenAccount, TokenInstruction};
use crate::utils::errors::{ErrorCode, InstructionError};

verus! {

/// The accounts of a sponsorship, as far as the instruction reads them.
#[derive(Clone, Debug, PartialEq, Eq)]
pub struct Sponsor {
    pub evento: Evento,
    /// The address of the event account.
    pub evento_key: Pubkey,
    /// The mint of the event's own token.
    pub event_mint: Pubkey,
    /// The sponsor's account of the accepted mint, which pays.
    pub payer_accepted_mint_ata: TokenAccount,
    /// The sponsor's account of the event's token, which receives.
    pub payer_event_mint_ata: Pubkey,
    /// The event's treasury.
    pub treasury_vault: Pubkey,
    /// The sponsor, who signs.
    pub authority: Pubkey,
    pub clock: Clock,
}

/// Notice that the sales of an event closed: the event's address and the time.
#[derive(Clone, Copy, Debug, PartialEq, Eq)]
pub struct EventSalesClosed {
    pub event: Pubkey,
    pub timestamp: i64,
}

impl Sponsor {
    /// The same accounts with another event.
    pub open spec fn with_evento(self, evento: Evento) -> Sponsor {
        Sponsor { evento, ..self }
    }

    /// What the checks on the accounts answer: sales must be open, and the
    /// paying account must hold the accepted mint and not be empty.
    pub open spec fn constraints(self) -> Result<(), InstructionError> {
        if !self.evento.open_sales {
            Err(InstructionError::Custom(ErrorCode::VentasCerradas))
        } else if self.payer_accepted_mint_ata.mint != self.evento.accepted_mint {
            Err(InstructionError::ConstraintRaw)
        } else if self.payer_accepted_mint_ata.amount == 0 {
            Err(InstructionError::ConstraintRaw)
        } else {
            Ok(())
        }
    }

    /// Checks the accounts, in the order they are declared.
    pub fn validate(&self) -> (r: Result<(), InstructionError>)
        ensures
            r == self.constraints(),
    {
        if !self.evento.open_sales {
            return Err(InstructionError::Custom(ErrorCode::VentasCerradas));
        }
        if !self.payer_accepted_mint_ata.mint.equals(&self.evento.accepted_mint) {
            return Err(InstructionError::ConstraintRaw);
        }
        if self.payer_accepted_mint_ata.amount == 0 {
            return Err(InstructionError::ConstraintRaw);
        }
        Ok(())
    }

    /// Whether the closing time of the event is reached.
    pub open spec fn past_close(self) -> bool {
        self.evento.closing_reached(self.clock.unix_timestamp)
    }
}

/// The token operations of a sponsorship of `quantity`: the payment into the
/// treasury, then the minting of as many event tokens, signed by the event.
pub open spec fn sponsor_operations(ctx: Sponsor, quantity: u64) -> Seq<TokenInstruction> {
    seq![
        TokenInstruction::Transfer {
            from: ctx.payer_accepted_mint_ata.key,
            to: ctx.treasury_vault,
            authority: ctx.authority,
            amount: quantity,
            signer: None,
        },
        TokenInstruction::MintTo {
            mint: ctx.event_mint,
            to: ctx.payer_event_mint_ata,
            authority: ctx.evento_key,
            amount: quantity,
            signer: Some(EventSigner { authority: ctx.evento.authority, bump: ctx.evento.event_bump }),
        },
    ]
}

/// Takes `quantity` tokens of the accepted mint from the sponsor into the
/// treasury, mints `quantity` event tokens to the sponsor, and adds
/// `quantity` to the sponsored total. From the closing time on the sponsorship
/// is refused with `SeCierranLasVentas`; the sales are marked closed on the
/// way, but a refused instruction keeps none of its writes, so the event is
/// left as it was.
pub fn handle(ctx: &mut Sponsor, quantity: u64) -> (r: Result<Vec<TokenInstruction>, InstructionError>)
    requires
        !old(ctx).past_close() ==> old(ctx).evento.sponsor_ammount + quantity <= u64::MAX,
    ensures
        r is Err <==> old(ctx).past_close(),
        r matches Err(e) ==> e == InstructionError::Custom(ErrorCode::SeCierranLasVentas)
            && *final(ctx) == *old(ctx),
        r matches Ok(ops) ==> ops@ == sponsor_operations(*old(ctx), quantity)
            && final(ctx).evento.sponsor_ammount == old(ctx).evento.sponsor_ammount + quantity
            && *final(ctx) == old(ctx).with_evento(
                Evento { sponsor_ammount: final(ctx).evento.sponsor_ammount, ..old(ctx).evento },
            ),
{
    if ctx.clock.unix_timestamp >= ctx.evento.timestamp_event_close {
        return Err(InstructionError::Custom(ErrorCode::SeCierranLasVentas));
    }
    let mut ops: Vec<TokenInstruction> = Vec::new();
    ops.push(
        TokenInstruction::Transfer {
            from: ctx.payer_accepted_mint_ata.key,
            to: ctx.treasury_vault,
            authority: ctx.authority,
            amount: quantity,
            signer: None,
        },
    );
    ops.push(
        TokenInstruction::MintTo {
            mint: ctx.event_mint,
            to: ctx.payer_event_mint_ata,
            authority: ctx.evento_key,
            amount: quantity,
            signer: Some(ctx.evento.signer()),
        },
    );
    ctx.evento.sponsor_ammount = ctx.evento.sponsor_ammount + quantity;
    assert(ops@ =~= sponsor_operations(*old(ctx), quantity));
    Ok(ops)
}

} // verus!
