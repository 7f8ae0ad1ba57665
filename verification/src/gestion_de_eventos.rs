//! The program's instructions: the checks on the accounts, then the handler.
//! A refused instruction writes nothing.
use vstd::prelude::*;
use crate::collections::Evento;
use crate::cuentas::{Clock, TokenInstruction};
use crate::instrucciones::cerrar_evento::{self, may_close, CerrarEvento};
use crate::instrucciones::comprar_tickets::{self, purchase_operations, ticket_charge, ComprarTickets};
use crate::instrucciones::crear_evento::{self, created, CrearEvento};
use crate::instrucciones::sponsor::{self, sponsor_operations, Sponsor};
use crate::instrucciones::withdraw_funds::{self, withdraw_operations, WithdrawFunds};
use crate::leyes::{admissible_step, lemma_nothing_mints_nothing, lemma_sponsorship_balanced, lemma_transfer_mints_nothing};
use crate::utils::errors::{ErrorCode, InstructionError};

verus! {

/// Creates an event; see `crear_evento::handle`. The sales open whatever
/// `open_sales` says.
pub fn crear_evento(
    ctx: &mut CrearEvento,
    nombre: String,
    precio: u64,
    open_sales: bool,
    close_presales_date: i64,
    close_sales_date: i64,
) -> (r: Result<(), InstructionError>)
    ensures
        r is Ok <==> Evento::name_fits(nombre@),
        r is Ok ==> *final(ctx) == old(ctx).with_evento(
            created(old(ctx).evento, *old(ctx), nombre, precio, close_presales_date, close_sales_date),
        ),
        r matches Err(e) ==> e == InstructionError::AccountDidNotSerialize && *final(ctx) == *old(ctx),
{
    crear_evento::handle(ctx, nombre, precio, close_presales_date, close_sales_date)
}

/// Sponsors an event with `quantity` tokens: the checks on the accounts
/// (`Sponsor::constraints`), then `sponsor::handle`.
pub fn sponsor_event(ctx: &mut Sponsor, quantity: u64) -> (r: Result<Vec<TokenInstruction>, InstructionError>)
    requires
        old(ctx).constraints() is Ok && !old(ctx).past_close()
            ==> old(ctx).evento.sponsor_ammount + quantity <= u64::MAX,
    ensures
        old(ctx).constraints() matches Err(e) ==> r == Err::<Vec<TokenInstruction>, _>(e),
        old(ctx).constraints() is Ok && old(ctx).past_close()
            ==> r == Err::<Vec<TokenInstruction>, _>(InstructionError::Custom(ErrorCode::SeCierranLasVentas)),
        r is Err ==> *final(ctx) == *old(ctx),
        r is Ok <==> old(ctx).constraints() is Ok && !old(ctx).past_close(),
        r matches Ok(ops) ==> ops@ == sponsor_operations(*old(ctx), quantity)
            && *final(ctx) == old(ctx).with_evento(
                Evento {
                    sponsor_ammount: (old(ctx).evento.sponsor_ammount + quantity) as u64,
                    ..old(ctx).evento
                },
            ),
        r matches Ok(ops) ==> admissible_step(old(ctx).evento, final(ctx).evento, ops@),
{
    proof {
        lemma_sponsorship_balanced(*ctx, quantity);
    }
    match ctx.validate() {
        Err(e) => Err(e),
        Ok(()) => sponsor::handle(ctx, quantity),
    }
}

/// Buys `quantity` tickets: the checks on the accounts
/// (`ComprarTickets::constraints`); then, once the closing time is reached,
/// the purchase is refused with `SeCierranLasVentas`; else it is charged
/// (see `comprar_tickets::handle`). The event is not written.
pub fn comprar_tickets(ctx: &mut ComprarTickets, quantity: u64) -> (r: Result<Vec<TokenInstruction>, InstructionError>)
    requires
        old(ctx).constraints() is Ok && !old(ctx).past_close()
            ==> old(ctx).evento.ticket_price * quantity <= u64::MAX,
    ensures
        *final(ctx) == *old(ctx),
        old(ctx).constraints() matches Err(e) ==> r == Err::<Vec<TokenInstruction>, _>(e),
        old(ctx).constraints() is Ok && old(ctx).past_close()
            ==> r == Err::<Vec<TokenInstruction>, _>(InstructionError::Custom(ErrorCode::SeCierranLasVentas)),
        r is Ok <==> old(ctx).constraints() is Ok && !old(ctx).past_close(),
        r matches Ok(ops) ==> ops@ == seq![
            TokenInstruction::Transfer {
                from: old(ctx).payer_accepted_mint_ata.key,
                to: old(ctx).gain_vault,
                authority: old(ctx).authority,
                amount: ticket_charge(
                    old(ctx).evento.ticket_price,
                    quantity,
                    old(ctx).clock.unix_timestamp,
                    old(ctx).evento.timestamp_presales_close,
                ) as u64,
                signer: None,
            },
        ],
        r matches Ok(ops) ==> ops@ == purchase_operations(*old(ctx), quantity),
        r matches Ok(ops) ==> admissible_step(old(ctx).evento, final(ctx).evento, ops@),
{
    match ctx.validate() {
        Err(e) => Err(e),
        Ok(()) => {
            if ctx.clock.unix_timestamp >= ctx.evento.timestamp_event_close {
                return Err(InstructionError::Custom(ErrorCode::SeCierranLasVentas));
            }
            let ops = comprar_tickets::handle(ctx, quantity);
            proof {
                lemma_transfer_mints_nothing(ops@[0]);
                assert(ops@ =~= seq![ops@[0]]);
            }
            Ok(ops)
        },
    }
}

/// Withdraws `quantity` tokens from the treasury: the checks on the accounts
/// (`WithdrawFunds::constraints`), then `withdraw_funds::handle`.
pub fn withdraw(ctx: &WithdrawFunds, quantity: u64) -> (r: Result<Vec<TokenInstruction>, InstructionError>)
    ensures
        ctx.constraints(quantity) matches Err(e) ==> r == Err::<Vec<TokenInstruction>, _>(e),
        r is Ok <==> ctx.constraints(quantity) is Ok,
        r matches Ok(ops) ==> ops@ == withdraw_operations(*ctx, quantity),
        r matches Ok(ops) ==> admissible_step(ctx.evento, ctx.evento, ops@),
{
    match ctx.validate(quantity) {
        Err(e) => Err(e),
        Ok(()) => {
            let ops = withdraw_funds::handle(ctx, quantity);
            proof {
                lemma_transfer_mints_nothing(ops@[0]);
                assert(ops@ =~= seq![ops@[0]]);
            }
            Ok(ops)
        },
    }
}

/// Closes the sales of an event; see `cerrar_evento::handle`.
pub fn cerrar_evento(ctx: &mut CerrarEvento, clock: &Clock) -> (r: Result<(), InstructionError>)
    ensures
        r is Ok <==> may_close(old(ctx).evento, old(ctx).authority, clock.unix_timestamp),
        r is Ok ==> final(ctx).authority == old(ctx).authority
            && final(ctx).evento == (Evento { open_sales: false, ..old(ctx).evento }),
        r matches Err(e) ==> e == InstructionError::Custom(ErrorCode::UstedNoPuedeCerrarElEventoAun)
            && *final(ctx) == *old(ctx),
        r is Ok ==> admissible_step(old(ctx).evento, final(ctx).evento, Seq::<TokenInstruction>::empty()),
{
    proof {
        lemma_nothing_mints_nothing();
    }
    cerrar_evento::handle(ctx, clock)
}

} // verus!
