//! Properties that relate the instructions to one another.
use vstd::prelude::*;
use crate::collections::Evento;
use crate::cuentas::{Clock, EventSigner, Pubkey, TokenInstruction};
use crate::instrucciones::cerrar_evento::may_close;
use crate::instrucciones::comprar_tickets::{purchase_operations, ticket_charge, ComprarTickets};
use crate::instrucciones::crear_evento::{created, CrearEvento};
use crate::instrucciones::sponsor::{sponsor_operations, Sponsor};
use crate::instrucciones::withdraw_funds::{withdraw_operations, WithdrawFunds};
use crate::utils::errors::{ErrorCode, InstructionError};

verus! {

/// The event tokens that a list of token operations mints.
pub open spec fn minted(ops: Seq<TokenInstruction>) -> int
    decreases ops.len(),
{
    if ops.len() == 0 {
        0
    } else {
        let rest = minted(ops.drop_last());
        match ops.last() {
            TokenInstruction::MintTo { amount, .. } => rest + amount,
            _ => rest,
        }
    }
}

/// The tokens that a list of token operations moves into `account`.
pub open spec fn paid_into(ops: Seq<TokenInstruction>, account: Pubkey) -> int
    decreases ops.len(),
{
    if ops.len() == 0 {
        0
    } else {
        let rest = paid_into(ops.drop_last(), account);
        match ops.last() {
            TokenInstruction::Transfer { to, amount, .. } => if to == account {
                rest + amount
            } else {
                rest
            },
            _ => rest,
        }
    }
}

/// The tokens that a list of token operations moves out of `account`.
pub open spec fn paid_from(ops: Seq<TokenInstruction>, account: Pubkey) -> int
    decreases ops.len(),
{
    if ops.len() == 0 {
        0
    } else {
        let rest = paid_from(ops.drop_last(), account);
        match ops.last() {
            TokenInstruction::Transfer { from, amount, .. } => if from == account {
                rest + amount
            } else {
                rest
            },
            _ => rest,
        }
    }
}

/// The tokens of `mint` that a list of token operations creates into `account`.
pub open spec fn minted_into(ops: Seq<TokenInstruction>, mint: Pubkey, account: Pubkey) -> int
    decreases ops.len(),
{
    if ops.len() == 0 {
        0
    } else {
        let rest = minted_into(ops.drop_last(), mint, account);
        match ops.last() {
            TokenInstruction::MintTo { mint: m, to, amount, .. } => if m == mint && to == account {
                rest + amount
            } else {
                rest
            },
            _ => rest,
        }
    }
}

/// What a list of a single transfer moves and mints.
pub proof fn lemma_one_transfer(
    from: Pubkey,
    to: Pubkey,
    authority: Pubkey,
    amount: u64,
    signer: Option<EventSigner>,
    account: Pubkey,
    mint: Pubkey,
)
    ensures
        ({
            let ops = seq![TokenInstruction::Transfer { from, to, authority, amount, signer }];
            &&& paid_into(ops, account) == (if to == account { amount as int } else { 0 })
            &&& paid_from(ops, account) == (if from == account { amount as int } else { 0 })
            &&& minted(ops) == 0
            &&& minted_into(ops, mint, account) == 0
        }),
{
    let ops = seq![TokenInstruction::Transfer { from, to, authority, amount, signer }];
    assert(ops.drop_last() =~= Seq::<TokenInstruction>::empty());
    assert(ops.last() == ops[0]);
    assert(paid_into(ops.drop_last(), account) == 0);
    assert(paid_from(ops.drop_last(), account) == 0);
    assert(minted(ops.drop_last()) == 0);
    assert(minted_into(ops.drop_last(), mint, account) == 0);
}

/// A sponsorship pays into the treasury exactly as many tokens as it mints
/// event tokens, and both are the quantity asked for.
pub proof fn lemma_sponsorship_balanced(ctx: Sponsor, quantity: u64)
    ensures
        minted(sponsor_operations(ctx, quantity)) == quantity,
        paid_into(sponsor_operations(ctx, quantity), ctx.treasury_vault) == quantity,
{
    let ops = sponsor_operations(ctx, quantity);
    assert(ops.drop_last().drop_last() =~= Seq::<TokenInstruction>::empty());
    assert(ops.drop_last() =~= seq![ops[0]]);
    assert(minted(ops.drop_last().drop_last()) == 0);
    assert(minted(ops.drop_last()) == 0);
    assert(paid_into(ops.drop_last().drop_last(), ctx.treasury_vault) == 0);
    assert(paid_into(ops.drop_last(), ctx.treasury_vault) == quantity);
}

/// A transfer mints nothing.
pub proof fn lemma_transfer_mints_nothing(op: TokenInstruction)
    requires
        op is Transfer,
    ensures
        minted(seq![op]) == 0,
{
    assert(seq![op].drop_last() =~= Seq::<TokenInstruction>::empty());
    assert(minted(seq![op].drop_last()) == 0);
    assert(seq![op].last() == op);
}

/// An empty list of operations mints nothing.
pub proof fn lemma_nothing_mints_nothing()
    ensures
        minted(Seq::<TokenInstruction>::empty()) == 0,
{
}

/// What any accepted instruction after the creation does to the event: it
/// keeps the name, the price, the times, the authority, the accepted mint
/// and the bumps; it never reopens the sales; and it adds to the sponsored
/// total exactly the event tokens it mints.
pub open spec fn admissible_step(before: Evento, after: Evento, ops: Seq<TokenInstruction>) -> bool {
    &&& after == (Evento {
        open_sales: after.open_sales,
        sponsor_ammount: after.sponsor_ammount,
        ..before
    })
    &&& after.open_sales ==> before.open_sales
    &&& after.sponsor_ammount == before.sponsor_ammount + minted(ops)
}

/// The event tokens minted by a run of operation lists.
pub open spec fn total_minted(ops: Seq<Seq<TokenInstruction>>) -> int
    decreases ops.len(),
{
    if ops.len() == 0 {
        0
    } else {
        total_minted(ops.drop_last()) + minted(ops.last())
    }
}

/// Over any run of accepted instructions, the event keeps its name, price,
/// times, authority, accepted mint and bumps; the sponsored total grows by
/// exactly the event tokens minted; and sales once closed stay closed.
pub proof fn lemma_run(events: Seq<Evento>, ops: Seq<Seq<TokenInstruction>>)
    requires
        events.len() == ops.len() + 1,
        forall|i: int|
            0 <= i < ops.len() ==> admissible_step(#[trigger] events[i], events[i + 1], ops[i]),
    ensures
        events.last() == (Evento {
            open_sales: events.last().open_sales,
            sponsor_ammount: events.last().sponsor_ammount,
            ..events[0]
        }),
        events.last().sponsor_ammount == events[0].sponsor_ammount + total_minted(ops),
        forall|k: int| 0 <= k < events.len() && !(#[trigger] events[k]).open_sales ==> !events.last().open_sales,
    decreases ops.len(),
{
    if ops.len() > 0 {
        let n = ops.len() - 1;
        let prefix = events.drop_last();
        assert forall|i: int| 0 <= i < ops.drop_last().len() implies admissible_step(
            #[trigger] prefix[i],
            prefix[i + 1],
            ops.drop_last()[i],
        ) by {
            assert(admissible_step(events[i], events[i + 1], ops[i]));
        }
        lemma_run(prefix, ops.drop_last());
        assert(admissible_step(events[n], events[n + 1], ops[n]));
        assert forall|k: int| 0 <= k < events.len() && !(#[trigger] events[k]).open_sales implies !events.last().open_sales by {
            if k < events.len() - 1 {
                assert(prefix[k] == events[k]);
            }
        }
    }
}

/// After a creation, no run of accepted instructions changes the authority,
/// the accepted mint or a bump; and the sponsored total is exactly the event
/// tokens minted since.
pub proof fn lemma_after_creation(
    ctx: CrearEvento,
    nombre: String,
    precio: u64,
    close_presales_date: i64,
    close_sales_date: i64,
    events: Seq<Evento>,
    ops: Seq<Seq<TokenInstruction>>,
)
    requires
        events.len() == ops.len() + 1,
        events[0] == created(ctx.evento, ctx, nombre, precio, close_presales_date, close_sales_date),
        forall|i: int|
            0 <= i < ops.len() ==> admissible_step(#[trigger] events[i], events[i + 1], ops[i]),
    ensures
        events.last().authority == ctx.authority,
        events.last().accepted_mint == ctx.accepted_mint,
        events.last().event_bump == ctx.bumps.evento,
        events.last().event_mint_bump == ctx.bumps.event_mint,
        events.last().treasury_vault_bump == ctx.bumps.treasury_vault,
        events.last().gain_vault_bump == ctx.bumps.gain_vault,
        events.last().sponsor_ammount == total_minted(ops),
{
    lemma_run(events, ops);
}

/// Once the sales of an event are closed, sponsorships and purchases of
/// tickets are refused, whatever the other accounts hold.
pub proof fn lemma_closed_refuses(s: Sponsor, t: ComprarTickets)
    requires
        !s.evento.open_sales,
        !t.evento.open_sales,
    ensures
        s.constraints() == Err::<(), _>(InstructionError::Custom(ErrorCode::VentasCerradas)),
        t.constraints() == Err::<(), _>(InstructionError::Custom(ErrorCode::EventoCerrado)),
{
}

/// Closing is idempotent: whoever may close an event may close it again, and
/// closing it again changes nothing.
pub proof fn lemma_close_idempotent(e: Evento, signer: Pubkey, now: i64)
    ensures
        may_close(e, signer, now) == may_close(Evento { open_sales: false, ..e }, signer, now),
        (Evento { open_sales: false, ..(Evento { open_sales: false, ..e }) }) == (Evento {
            open_sales: false,
            ..e
        }),
{
}

/// Only the authority of an event can withdraw from its treasury, and never
/// more than the treasury holds.
pub proof fn lemma_withdraw_guarded(ctx: WithdrawFunds, amount: u64)
    ensures
        ctx.constraints(amount) is Ok <==> ctx.authority == ctx.evento.authority
            && amount <= ctx.treasury_vault.amount,
{
}

/// A new event starts open, with nothing sponsored and the signer as its
/// authority; before its closing time it accepts a sponsorship paid from a
/// non-empty account of its accepted mint.
pub proof fn lemma_new_event_accepts_sponsors(
    ctx: CrearEvento,
    nombre: String,
    precio: u64,
    close_presales_date: i64,
    close_sales_date: i64,
    s: Sponsor,
)
    requires
        s.evento == created(ctx.evento, ctx, nombre, precio, close_presales_date, close_sales_date),
        s.payer_accepted_mint_ata.mint == ctx.accepted_mint,
        s.payer_accepted_mint_ata.amount > 0,
        s.clock.unix_timestamp < close_sales_date,
    ensures
        s.evento.open_sales,
        s.evento.sponsor_ammount == 0,
        s.evento.authority == ctx.authority,
        s.constraints() is Ok,
        !s.past_close(),
{
}

/// The authority of an event may always close it; anyone may once its
/// closing time is reached, and no one else before.
pub proof fn lemma_who_may_close(e: Evento, signer: Pubkey, clock: Clock)
    ensures
        may_close(e, e.authority, clock.unix_timestamp),
        clock.unix_timestamp >= e.timestamp_event_close ==> may_close(e, signer, clock.unix_timestamp),
        signer != e.authority && clock.unix_timestamp < e.timestamp_event_close ==> !may_close(
            e,
            signer,
            clock.unix_timestamp,
        ),
{
}

} // verus!

verus! {

/// A sponsorship takes exactly the quantity from the sponsor's paying
/// account, and creates exactly the quantity of the event's token into the
/// sponsor's account of it.
pub proof fn lemma_sponsorship_reaches_the_sponsor(ctx: Sponsor, quantity: u64)
    ensures
        paid_from(sponsor_operations(ctx, quantity), ctx.payer_accepted_mint_ata.key) == quantity,
        minted_into(sponsor_operations(ctx, quantity), ctx.event_mint, ctx.payer_event_mint_ata)
            == quantity,
{
    let ops = sponsor_operations(ctx, quantity);
    assert(ops.drop_last().drop_last() =~= Seq::<TokenInstruction>::empty());
    assert(ops.drop_last() =~= seq![ops[0]]);
    assert(paid_from(ops.drop_last().drop_last(), ctx.payer_accepted_mint_ata.key) == 0);
    assert(paid_from(ops.drop_last(), ctx.payer_accepted_mint_ata.key) == quantity);
    assert(minted_into(ops.drop_last().drop_last(), ctx.event_mint, ctx.payer_event_mint_ata) == 0);
    assert(minted_into(ops.drop_last(), ctx.event_mint, ctx.payer_event_mint_ata) == 0);
}

/// A withdrawal of `amount` is one transfer that takes exactly `amount` out
/// of the treasury and puts exactly `amount` into the authority's account,
/// whatever the treasury holds; it mints nothing, and the event signs it.
pub proof fn lemma_withdraw_moves_the_amount(ctx: WithdrawFunds, amount: u64)
    ensures
        withdraw_operations(ctx, amount).len() == 1,
        paid_from(withdraw_operations(ctx, amount), ctx.treasury_vault.key) == amount,
        paid_into(withdraw_operations(ctx, amount), ctx.authotiry_accepted_mint_ata) == amount,
        minted(withdraw_operations(ctx, amount)) == 0,
        withdraw_operations(ctx, amount)[0] matches TokenInstruction::Transfer { signer: Some(s), .. }
            && s.authority == ctx.evento.authority && s.bump == ctx.evento.event_bump,
{
    let ops = withdraw_operations(ctx, amount);
    lemma_one_transfer(
        ctx.treasury_vault.key,
        ctx.authotiry_accepted_mint_ata,
        ctx.evento_key,
        amount,
        Some(EventSigner { authority: ctx.evento.authority, bump: ctx.evento.event_bump }),
        ctx.treasury_vault.key,
        ctx.evento.accepted_mint,
    );
    lemma_one_transfer(
        ctx.treasury_vault.key,
        ctx.authotiry_accepted_mint_ata,
        ctx.evento_key,
        amount,
        Some(EventSigner { authority: ctx.evento.authority, bump: ctx.evento.event_bump }),
        ctx.authotiry_accepted_mint_ata,
        ctx.evento.accepted_mint,
    );
}

/// A purchase is one transfer that takes exactly the charge from the
/// buyer's paying account and puts exactly the charge into the gain vault;
/// it mints nothing.
pub proof fn lemma_purchase_pays_the_charge(ctx: ComprarTickets, quantity: u64)
    requires
        ctx.evento.ticket_price * quantity <= u64::MAX,
    ensures
        purchase_operations(ctx, quantity).len() == 1,
        paid_from(purchase_operations(ctx, quantity), ctx.payer_accepted_mint_ata.key) == ticket_charge(
            ctx.evento.ticket_price,
            quantity,
            ctx.clock.unix_timestamp,
            ctx.evento.timestamp_presales_close,
        ),
        paid_into(purchase_operations(ctx, quantity), ctx.gain_vault) == ticket_charge(
            ctx.evento.ticket_price,
            quantity,
            ctx.clock.unix_timestamp,
            ctx.evento.timestamp_presales_close,
        ),
        minted(purchase_operations(ctx, quantity)) == 0,
{
    let c = ticket_charge(
        ctx.evento.ticket_price,
        quantity,
        ctx.clock.unix_timestamp,
        ctx.evento.timestamp_presales_close,
    );
    assert(ctx.evento.ticket_price * quantity >= 0) by (nonlinear_arith);
    assert(0 <= c <= u64::MAX);
    lemma_one_transfer(
        ctx.payer_accepted_mint_ata.key,
        ctx.gain_vault,
        ctx.authority,
        c as u64,
        None,
        ctx.payer_accepted_mint_ata.key,
        ctx.evento.accepted_mint,
    );
    lemma_one_transfer(
        ctx.payer_accepted_mint_ata.key,
        ctx.gain_vault,
        ctx.authority,
        c as u64,
        None,
        ctx.gain_vault,
        ctx.evento.accepted_mint,
    );
}

/// During the presale, `quantity` tickets cost half their full price,
/// rounded down, and one token when that half is nothing: twice the charge
/// is the full price or one less.
pub proof fn lemma_presale_is_half(price: u64, quantity: u64, now: i64, presales_close: i64)
    requires
        now < presales_close,
    ensures
        price * quantity >= 2 ==> 2 * ticket_charge(price, quantity, now, presales_close)
            <= price * quantity < 2 * ticket_charge(price, quantity, now, presales_close) + 2,
        price * quantity >= 2 ==> ticket_charge(price, quantity, now, presales_close) == (price
            * quantity) / 2,
        price * quantity < 2 ==> ticket_charge(price, quantity, now, presales_close) == 1,
{
    assert(price * quantity >= 0) by (nonlinear_arith);
}

/// A new event holds exactly what its creation was given: the name, the
/// price, the presale end and the closing time, the signer as authority, the
/// accepted mint and the bumps; its sales are open and nothing is sponsored.
pub proof fn lemma_created_from_arguments(
    e: Evento,
    ctx: CrearEvento,
    nombre: String,
    precio: u64,
    close_presales_date: i64,
    close_sales_date: i64,
)
    ensures
        ({
            let n = created(e, ctx, nombre, precio, close_presales_date, close_sales_date);
            &&& n.name == nombre
            &&& n.ticket_price == precio
            &&& n.timestamp_presales_close == close_presales_date
            &&& n.timestamp_event_close == close_sales_date
            &&& n.open_sales
            &&& n.sponsor_ammount == 0
            &&& n.authority == ctx.authority
            &&& n.accepted_mint == ctx.accepted_mint
            &&& n.event_bump == ctx.bumps.evento
            &&& n.event_mint_bump == ctx.bumps.event_mint
            &&& n.treasury_vault_bump == ctx.bumps.treasury_vault
            &&& n.gain_vault_bump == ctx.bumps.gain_vault
        }),
{
}

/// A sponsorship is accepted exactly when sales are open and the paying
/// account holds the accepted mint and is not empty; an account of any other
/// mint is refused, whatever it holds.
pub proof fn lemma_sponsor_checks(s: Sponsor)
    ensures
        s.constraints() is Ok <==> s.evento.open_sales && s.payer_accepted_mint_ata.mint
            == s.evento.accepted_mint && s.payer_accepted_mint_ata.amount > 0,
        s.evento.open_sales && s.payer_accepted_mint_ata.mint != s.evento.accepted_mint
            ==> s.constraints() == Err::<(), _>(InstructionError::ConstraintRaw),
        s.evento.open_sales && s.payer_accepted_mint_ata.amount == 0 ==> s.constraints() == Err::<
            (),
            _,
        >(InstructionError::ConstraintRaw),
{
}

/// A purchase is accepted exactly when sales are open and the paying account
/// holds the accepted mint and is not empty; an account of any other mint is
/// refused with `MintNoCoincide`, whatever it holds, and an empty account of
/// the accepted mint with `FondosInsuficientes`.
pub proof fn lemma_purchase_checks(t: ComprarTickets)
    ensures
        t.constraints() is Ok <==> t.evento.open_sales && t.payer_accepted_mint_ata.mint
            == t.evento.accepted_mint && t.payer_accepted_mint_ata.amount > 0,
        t.evento.open_sales && t.payer_accepted_mint_ata.mint != t.evento.accepted_mint
            ==> t.constraints() == Err::<(), _>(InstructionError::Custom(ErrorCode::MintNoCoincide)),
        t.evento.open_sales && t.payer_accepted_mint_ata.mint == t.evento.accepted_mint
            && t.payer_accepted_mint_ata.amount == 0 ==> t.constraints() == Err::<(), _>(
            InstructionError::Custom(ErrorCode::FondosInsuficientes),
        ),
{
}

} // verus!

verus! {

/// Who gives the word for each operation: a sponsorship's payment is on the
/// sponsor's word alone, and its minting on the event's, which signs with
/// its authority and bump; a purchase is on the buyer's word alone; a
/// withdrawal on the event's, which signs.
pub proof fn lemma_who_signs(s: Sponsor, q: u64, t: ComprarTickets, tq: u64, w: WithdrawFunds, wq: u64)
    ensures
        sponsor_operations(s, q).len() == 2,
        sponsor_operations(s, q)[0] matches TokenInstruction::Transfer { authority, signer, .. }
            && authority == s.authority && signer is None,
        sponsor_operations(s, q)[1] matches TokenInstruction::MintTo {
            authority,
            signer: Some(sg),
            ..
        } && authority == s.evento_key && sg.authority == s.evento.authority && sg.bump
            == s.evento.event_bump,
        purchase_operations(t, tq)[0] matches TokenInstruction::Transfer { authority, signer, .. }
            && authority == t.authority && signer is None,
        withdraw_operations(w, wq)[0] matches TokenInstruction::Transfer { authority, .. }
            && authority == w.evento_key,
{
}

/// A withdrawal by someone other than the authority is refused as coming
/// from the wrong event; one by the authority of more than the treasury
/// holds is refused with `TreasuryVaultError`.
pub proof fn lemma_withdraw_refusals(ctx: WithdrawFunds, amount: u64)
    ensures
        ctx.authority != ctx.evento.authority ==> ctx.constraints(amount) == Err::<(), _>(
            InstructionError::ConstraintSeeds,
        ),
        ctx.authority == ctx.evento.authority && amount > ctx.treasury_vault.amount
            ==> ctx.constraints(amount) == Err::<(), _>(
            InstructionError::Custom(ErrorCode::TreasuryVaultError),
        ),
{
}

/// Sales end at the closing time itself: from that instant sponsorships and
/// purchases count as late, and before it they do not.
pub proof fn lemma_sales_end_at_the_closing_time(s: Sponsor, t: ComprarTickets)
    ensures
        s.clock.unix_timestamp >= s.evento.timestamp_event_close <==> s.past_close(),
        t.clock.unix_timestamp >= t.evento.timestamp_event_close <==> t.past_close(),
{
}

/// The errors are numbered from `ERROR_CODE_OFFSET` in the order they are
/// declared.
pub proof fn lemma_codes_in_declaration_order()
    ensures
        ErrorCode::VentasCerradas.ordinal() == 0,
        ErrorCode::SeCierranLasVentas.ordinal() == 1,
        ErrorCode::EventoCerrado.ordinal() == 2,
        ErrorCode::MintNoCoincide.ordinal() == 3,
        ErrorCode::FondosInsuficientes.ordinal() == 4,
        ErrorCode::TreasuryVaultError.ordinal() == 5,
        ErrorCode::Unauthorized.ordinal() == 6,
        ErrorCode::UstedNoPuedeCerrarElEventoAun.ordinal() == 7,
{
}

} // verus!
