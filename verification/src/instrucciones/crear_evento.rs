//! Creation of an event.
use vstd::prelude::*;
use crate::collections::Evento;
use crate::cuentas::Pubkey;
use crate::utils::errors::InstructionError;

verus! {

/// The bumps that the new accounts' addresses were derived with.
#[derive(Clone, Copy, Debug, PartialEq, Eq)]
pub struct CrearEventoBumps {
    pub evento: u8,
    pub event_mint: u8,
    pub treasury_vault: u8,
    pub gain_vault: u8,
}

/// The accounts of a creation, as far as the instruction reads them.
#[derive(Clone, Debug, PartialEq, Eq)]
pub struct CrearEvento {
    /// The new event account.
    pub evento: Evento,
    /// The mint that the event will be paid in.
    pub accepted_mint: Pubkey,
    /// The mint of the event's own token.
    pub event_mint: Pubkey,
    /// The token account that sponsorships are paid into.
    pub treasury_vault: Pubkey,
    /// The token account that ticket sales are paid into.
    pub gain_vault: Pubkey,
    /// The signer, who becomes the event's authority.
    pub authority: Pubkey,
    pub bumps: CrearEventoBumps,
}

impl CrearEvento {
    /// The same accounts with another event.
    pub open spec fn with_evento(self, evento: Evento) -> CrearEvento {
        CrearEvento { evento, ..self }
    }
}

/// The event that a creation writes over `e`.
pub open spec fn created(
    e: Evento,
    ctx: CrearEvento,
    nombre: String,
    precio: u64,
    close_presales_date: i64,
    close_sales_date: i64,
) -> Evento {
    Evento {
        name: nombre,
        ticket_price: precio,
        open_sales: true,
        timestamp_event_close: close_sales_date,
        timestamp_presales_close: close_presales_date,
        sponsor_ammount: 0,
        authority: ctx.authority,
        accepted_mint: ctx.accepted_mint,
        event_bump: ctx.bumps.evento,
        event_mint_bump: ctx.bumps.event_mint,
        treasury_vault_bump: ctx.bumps.treasury_vault,
        gain_vault_bump: ctx.bumps.gain_vault,
        ..e
    }
}

/// Fills the new event: its name, its ticket price, its closing times, its
/// authority (the signer), its accepted mint and its bumps; its sales open
/// and nothing is sponsored yet.
/// A name that takes more than `Evento::NAME_MAX_LEN` bytes cannot be stored,
/// and the creation is refused with nothing written.
pub fn handle(
    ctx: &mut CrearEvento,
    nombre: String,
    precio: u64,
    close_presales_date: i64,
    close_sales_date: i64,
) -> (r: Result<(), InstructionError>)
    ensures
        r is Ok <==> Evento::name_fits(nombre@),
        r is Ok ==> *final(ctx) == old(ctx).with_evento(
            created(old(ctx).evento, *old(ctx), nombre, precio, close_presales_date, close_sales_date),
        ),
        r is Ok ==> final(ctx).evento.wf(),
        r matches Err(e) ==> e == InstructionError::AccountDidNotSerialize && *final(ctx) == *old(ctx),
{
    if nombre.as_str().as_bytes().len() > Evento::NAME_MAX_LEN {
        return Err(InstructionError::AccountDidNotSerialize);
    }
    ctx.evento.name = nombre;
    ctx.evento.ticket_price = precio;
    ctx.evento.open_sales = true;
    ctx.evento.timestamp_event_close = close_sales_date;
    ctx.evento.timestamp_presales_close = close_presales_date;
    ctx.evento.sponsor_ammount = 0;

    ctx.evento.authority = ctx.authority;
    ctx.evento.accepted_mint = ctx.accepted_mint;

    ctx.evento.event_bump = ctx.bumps.evento;
    ctx.evento.event_mint_bump = ctx.bumps.event_mint;
    ctx.evento.treasury_vault_bump = ctx.bumps.treasury_vault;
    ctx.evento.gain_vault_bump = ctx.bumps.gain_vault;
    Ok(())
}

} // verus!
