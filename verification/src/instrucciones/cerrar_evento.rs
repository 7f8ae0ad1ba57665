//! Closing of an event's sales.
use vstd::prelude::*;
use crate::collections::Evento;
use crate::cuentas::{Clock, Pubkey};
use crate::utils::errors::{ErrorCode, InstructionError};

verus! {

/// The accounts of a closing, as far as the instruction reads them.
#[derive(Clone, Debug, PartialEq, Eq)]
pub struct CerrarEvento {
    pub evento: Evento,
    /// The signer.
    pub authority: Pubkey,
}

/// Whether `signer` may close the sales of `evento` at time `now`: the
/// authority may at any time, anyone once the closing time is reached.
pub open spec fn may_close(evento: Evento, signer: Pubkey, now: i64) -> bool {
    signer == evento.authority || now >= evento.timestamp_event_close
}

/// Closes the sales of `evento` on the word of `signer` at time `now`, or
/// refuses with `UstedNoPuedeCerrarElEventoAun` and writes nothing.
pub fn close_sales(evento: &mut Evento, signer: &Pubkey, now: i64) -> (r: Result<(), InstructionError>)
    ensures
        r is Ok <==> may_close(*old(evento), *signer, now),
        r is Ok ==> *final(evento) == (Evento { open_sales: false, ..*old(evento) }),
        r matches Err(e) ==> e == InstructionError::Custom(ErrorCode::UstedNoPuedeCerrarElEventoAun)
            && *final(evento) == *old(evento),
{
    let fecha_de_cierre_alcanzada = now >= evento.timestamp_event_close;
    if !(signer.equals(&evento.authority) || fecha_de_cierre_alcanzada) {
        return Err(InstructionError::Custom(ErrorCode::UstedNoPuedeCerrarElEventoAun));
    }
    evento.open_sales = false;
    Ok(())
}

/// Closes the sales of the event at the time `clock` gives, if the signer
/// may (see `may_close`).
pub fn handle(ctx: &mut CerrarEvento, clock: &Clock) -> (r: Result<(), InstructionError>)
    ensures
        r is Ok <==> may_close(old(ctx).evento, old(ctx).authority, clock.unix_timestamp),
        r is Ok ==> final(ctx).authority == old(ctx).authority
            && final(ctx).evento == (Evento { open_sales: false, ..old(ctx).evento }),
        r matches Err(e) ==> e == InstructionError::Custom(ErrorCode::UstedNoPuedeCerrarElEventoAun)
            && *final(ctx) == *old(ctx),
{
    close_sales(&mut ctx.evento, &ctx.authority, clock.unix_timestamp)
}

} // verus!
