use gestion_de_eventos::collections::Evento;
use gestion_de_eventos::cuentas::{Clock, EventSigner, Pubkey, TokenAccount, TokenInstruction};
use gestion_de_eventos::gestion_de_eventos::{
    cerrar_evento, comprar_tickets, crear_evento, sponsor_event, withdraw,
};
use gestion_de_eventos::instrucciones::cerrar_evento::CerrarEvento;
use gestion_de_eventos::instrucciones::comprar_tickets::{charge, ComprarTickets};
use gestion_de_eventos::instrucciones::crear_evento::{CrearEvento, CrearEventoBumps};
use gestion_de_eventos::instrucciones::sponsor::Sponsor;
use gestion_de_eventos::instrucciones::withdraw_funds::WithdrawFunds;
use gestion_de_eventos::utils::errors::{ErrorCode, InstructionError};

fn key(b: u8) -> Pubkey {
    Pubkey::new_from_array([b; 32])
}

const AUTHORITY: u8 = 1;
const MINT: u8 = 2;
const EVENT_KEY: u8 = 3;
const EVENT_MINT: u8 = 4;
const TREASURY: u8 = 5;
const GAIN: u8 = 6;
const BUYER: u8 = 7;
const BUYER_ATA: u8 = 8;
const BUYER_EVENT_ATA: u8 = 9;
const OTHER_MINT: u8 = 10;

fn new_event(price: u64, presales_close: i64, close: i64) -> Evento {
    let mut ctx = CrearEvento {
        evento: Evento::default(),
        accepted_mint: key(MINT),
        event_mint: key(EVENT_MINT),
        treasury_vault: key(TREASURY),
        gain_vault: key(GAIN),
        authority: key(AUTHORITY),
        bumps: CrearEventoBumps { evento: 254, event_mint: 253, treasury_vault: 252, gain_vault: 251 },
    };
    crear_evento(&mut ctx, "Concierto".to_string(), price, false, presales_close, close).unwrap();
    ctx.evento
}

fn buyer_ata(mint: u8, amount: u64) -> TokenAccount {
    TokenAccount { key: key(BUYER_ATA), mint: key(mint), owner: key(BUYER), amount }
}

fn sponsor_ctx(evento: Evento, now: i64, ata: TokenAccount) -> Sponsor {
    Sponsor {
        evento,
        evento_key: key(EVENT_KEY),
        event_mint: key(EVENT_MINT),
        payer_accepted_mint_ata: ata,
        payer_event_mint_ata: key(BUYER_EVENT_ATA),
        treasury_vault: key(TREASURY),
        authority: key(BUYER),
        clock: Clock { unix_timestamp: now },
    }
}

fn tickets_ctx(evento: Evento, now: i64, ata: TokenAccount) -> ComprarTickets {
    ComprarTickets {
        evento,
        evento_key: key(EVENT_KEY),
        payer_accepted_mint_ata: ata,
        gain_vault: key(GAIN),
        authority: key(BUYER),
        clock: Clock { unix_timestamp: now },
    }
}

fn withdraw_ctx(evento: Evento, signer: u8, treasury: u64) -> WithdrawFunds {
    WithdrawFunds {
        evento,
        evento_key: key(EVENT_KEY),
        accepted_mint: key(MINT),
        authotiry_accepted_mint_ata: key(20),
        treasury_vault: TokenAccount { key: key(TREASURY), mint: key(MINT), owner: key(EVENT_KEY), amount: treasury },
        authority: key(signer),
    }
}

#[test]
fn creation_fills_the_event() {
    let e = new_event(10, 100, 200);
    assert_eq!(e.name, "Concierto");
    assert_eq!(e.ticket_price, 10);
    assert!(e.open_sales);
    assert_eq!(e.timestamp_presales_close, 100);
    assert_eq!(e.timestamp_event_close, 200);
    assert_eq!(e.sponsor_ammount, 0);
    assert_eq!(e.authority, key(AUTHORITY));
    assert_eq!(e.accepted_mint, key(MINT));
    assert_eq!((e.event_bump, e.event_mint_bump, e.treasury_vault_bump, e.gain_vault_bump), (254, 253, 252, 251));
}

#[test]
fn creation_starts_with_nothing_sponsored() {
    let mut stale = Evento::default();
    stale.sponsor_ammount = 77;
    let mut ctx = CrearEvento {
        evento: stale,
        accepted_mint: key(MINT),
        event_mint: key(EVENT_MINT),
        treasury_vault: key(TREASURY),
        gain_vault: key(GAIN),
        authority: key(AUTHORITY),
        bumps: CrearEventoBumps { evento: 1, event_mint: 2, treasury_vault: 3, gain_vault: 4 },
    };
    crear_evento(&mut ctx, "Feria".to_string(), 5, true, 0, 10).unwrap();
    assert_eq!(ctx.evento.sponsor_ammount, 0);
    assert!(ctx.evento.open_sales);
}

#[test]
fn creation_refuses_a_long_name() {
    let mut ctx = CrearEvento {
        evento: Evento::default(),
        accepted_mint: key(MINT),
        event_mint: key(EVENT_MINT),
        treasury_vault: key(TREASURY),
        gain_vault: key(GAIN),
        authority: key(AUTHORITY),
        bumps: CrearEventoBumps { evento: 1, event_mint: 2, treasury_vault: 3, gain_vault: 4 },
    };
    let before = ctx.clone();
    let r = crear_evento(&mut ctx, "a".repeat(21), 1, true, 0, 0);
    assert_eq!(r, Err(InstructionError::AccountDidNotSerialize));
    assert_eq!(ctx, before);
    // Twenty bytes fit; ten two-byte letters are twenty bytes, eleven are not.
    assert!(crear_evento(&mut ctx.clone(), "a".repeat(20), 1, true, 0, 0).is_ok());
    assert!(crear_evento(&mut ctx.clone(), "ñ".repeat(10), 1, true, 0, 0).is_ok());
    assert_eq!(
        crear_evento(&mut ctx.clone(), "ñ".repeat(11), 1, true, 0, 0),
        Err(InstructionError::AccountDidNotSerialize)
    );
}

#[test]
fn sponsorship_pays_mints_and_counts() {
    let e = new_event(10, 100, 200);
    let mut ctx = sponsor_ctx(e, 150, buyer_ata(MINT, 1000));
    let ops = sponsor_event(&mut ctx, 40).unwrap();
    assert_eq!(
        ops,
        vec![
            TokenInstruction::Transfer {
                from: key(BUYER_ATA),
                to: key(TREASURY),
                authority: key(BUYER),
                amount: 40,
                signer: None,
            },
            TokenInstruction::MintTo {
                mint: key(EVENT_MINT),
                to: key(BUYER_EVENT_ATA),
                authority: key(EVENT_KEY),
                amount: 40,
                signer: Some(EventSigner { authority: key(AUTHORITY), bump: 254 }),
            },
        ]
    );
    assert_eq!(ctx.evento.sponsor_ammount, 40);
    sponsor_event(&mut ctx, 2).unwrap();
    assert_eq!(ctx.evento.sponsor_ammount, 42);
}

#[test]
fn sponsorship_just_before_the_closing_time_is_accepted() {
    let mut ctx = sponsor_ctx(new_event(10, 100, 200), 199, buyer_ata(MINT, 1));
    assert!(sponsor_event(&mut ctx, 5).is_ok());
    assert_eq!(ctx.evento.sponsor_ammount, 5);
}

#[test]
fn sponsorship_at_the_closing_time_is_refused() {
    let mut ctx = sponsor_ctx(new_event(10, 100, 200), 200, buyer_ata(MINT, 1));
    let before = ctx.clone();
    assert_eq!(
        sponsor_event(&mut ctx, 5),
        Err(InstructionError::Custom(ErrorCode::SeCierranLasVentas))
    );
    assert_eq!(ctx, before);
}

#[test]
fn sponsorship_after_the_closing_time_is_refused() {
    let mut ctx = sponsor_ctx(new_event(10, 100, 200), 201, buyer_ata(MINT, 1));
    let before = ctx.clone();
    assert_eq!(
        sponsor_event(&mut ctx, 5),
        Err(InstructionError::Custom(ErrorCode::SeCierranLasVentas))
    );
    assert_eq!(ctx, before);
    assert!(ctx.evento.open_sales);
}

#[test]
fn sponsorship_checks_the_accounts_in_order() {
    let mut closed = new_event(10, 100, 200);
    closed.open_sales = false;
    // Closed sales come first, even with a wrong mint and an empty account.
    assert_eq!(
        sponsor_event(&mut sponsor_ctx(closed, 150, buyer_ata(OTHER_MINT, 0)), 1),
        Err(InstructionError::Custom(ErrorCode::VentasCerradas))
    );
    let e = new_event(10, 100, 200);
    assert_eq!(
        sponsor_event(&mut sponsor_ctx(e.clone(), 150, buyer_ata(OTHER_MINT, 5)), 1),
        Err(InstructionError::ConstraintRaw)
    );
    assert_eq!(
        sponsor_event(&mut sponsor_ctx(e, 150, buyer_ata(MINT, 0)), 1),
        Err(InstructionError::ConstraintRaw)
    );
}

#[test]
fn tickets_cost_full_price_after_the_presale() {
    let e = new_event(10, 100, 200);
    let mut ctx = tickets_ctx(e.clone(), 100, buyer_ata(MINT, 1));
    let ops = comprar_tickets(&mut ctx, 3).unwrap();
    assert_eq!(
        ops,
        vec![TokenInstruction::Transfer {
            from: key(BUYER_ATA),
            to: key(GAIN),
            authority: key(BUYER),
            amount: 30,
            signer: None,
        }]
    );
    assert_eq!(ctx.evento, e);
}

#[test]
fn tickets_cost_half_during_the_presale() {
    let e = new_event(10, 100, 200);
    let ops = comprar_tickets(&mut tickets_ctx(e.clone(), 99, buyer_ata(MINT, 1)), 3).unwrap();
    match ops[0] {
        TokenInstruction::Transfer { amount, .. } => assert_eq!(amount, 15),
        _ => panic!("a transfer was expected"),
    }
    let e = new_event(3, 100, 200);
    let ops = comprar_tickets(&mut tickets_ctx(e, 99, buyer_ata(MINT, 1)), 1).unwrap();
    match ops[0] {
        TokenInstruction::Transfer { amount, .. } => assert_eq!(amount, 1),
        _ => panic!("a transfer was expected"),
    }
}

#[test]
fn presale_charge_is_never_below_one_token() {
    assert_eq!(charge(0, 5, 0, 1), 1);
    assert_eq!(charge(7, 0, 0, 1), 1);
    assert_eq!(charge(1, 1, 0, 1), 1);
    assert_eq!(charge(0, 5, 1, 1), 0);
    assert_eq!(charge(7, 3, 0, 1), 10);
    assert_eq!(charge(7, 3, 1, 1), 21);
}

#[test]
fn tickets_check_the_accounts_in_order() {
    let mut closed = new_event(10, 100, 200);
    closed.open_sales = false;
    assert_eq!(
        comprar_tickets(&mut tickets_ctx(closed, 50, buyer_ata(OTHER_MINT, 0)), 1),
        Err(InstructionError::Custom(ErrorCode::EventoCerrado))
    );
    let e = new_event(10, 100, 200);
    assert_eq!(
        comprar_tickets(&mut tickets_ctx(e.clone(), 50, buyer_ata(OTHER_MINT, 0)), 1),
        Err(InstructionError::Custom(ErrorCode::MintNoCoincide))
    );
    assert_eq!(
        comprar_tickets(&mut tickets_ctx(e, 50, buyer_ata(MINT, 0)), 1),
        Err(InstructionError::Custom(ErrorCode::FondosInsuficientes))
    );
}

#[test]
fn a_purchase_from_the_closing_time_on_is_refused() {
    let e = new_event(10, 100, 200);
    for now in [200, 201, i64::MAX] {
        let mut ctx = tickets_ctx(e.clone(), now, buyer_ata(MINT, 1));
        let before = ctx.clone();
        assert_eq!(
            comprar_tickets(&mut ctx, 2),
            Err(InstructionError::Custom(ErrorCode::SeCierranLasVentas))
        );
        assert_eq!(ctx, before);
    }
    // The checks on the accounts come first.
    assert_eq!(
        comprar_tickets(&mut tickets_ctx(e, 201, buyer_ata(OTHER_MINT, 1)), 2),
        Err(InstructionError::Custom(ErrorCode::MintNoCoincide))
    );
}

#[test]
fn a_purchase_just_before_the_closing_time_is_charged() {
    let e = new_event(10, 100, 200);
    let mut ctx = tickets_ctx(e.clone(), 199, buyer_ata(MINT, 1));
    assert_eq!(comprar_tickets(&mut ctx, 2).unwrap().len(), 1);
    assert_eq!(ctx.evento, e);
}

fn minted(ops: &[TokenInstruction]) -> u64 {
    ops.iter()
        .map(|op| match op {
            TokenInstruction::MintTo { amount, .. } => *amount,
            _ => 0,
        })
        .sum()
}

#[test]
fn a_run_of_instructions_keeps_the_event_and_counts_the_minted_tokens() {
    let created = new_event(10, 100, 200);
    let mut e = created.clone();
    let mut total = 0;

    let mut s = sponsor_ctx(e.clone(), 50, buyer_ata(MINT, 9));
    total += minted(&sponsor_event(&mut s, 30).unwrap());
    e = s.evento;

    let mut t = tickets_ctx(e.clone(), 60, buyer_ata(MINT, 9));
    total += minted(&comprar_tickets(&mut t, 4).unwrap());
    e = t.evento;

    let w = withdraw_ctx(e.clone(), AUTHORITY, 30);
    total += minted(&withdraw(&w, 30).unwrap());

    let mut s = sponsor_ctx(e.clone(), 150, buyer_ata(MINT, 9));
    total += minted(&sponsor_event(&mut s, 12).unwrap());
    e = s.evento;

    let mut c = CerrarEvento { evento: e.clone(), authority: key(BUYER) };
    cerrar_evento(&mut c, &Clock { unix_timestamp: 250 }).unwrap();
    e = c.evento;

    assert_eq!(total, 42);
    assert_eq!(e.sponsor_ammount, created.sponsor_ammount + total);
    assert!(!e.open_sales);
    let mut expected = created;
    expected.open_sales = false;
    expected.sponsor_ammount = 42;
    assert_eq!(e, expected);
}

#[test]
fn withdrawal_by_the_authority() {
    let e = new_event(10, 100, 200);
    let ctx = withdraw_ctx(e, AUTHORITY, 500);
    assert_eq!(
        withdraw(&ctx, 500).unwrap(),
        vec![TokenInstruction::Transfer {
            from: key(TREASURY),
            to: key(20),
            authority: key(EVENT_KEY),
            amount: 500,
            signer: Some(EventSigner { authority: key(AUTHORITY), bump: 254 }),
        }]
    );
}

#[test]
fn withdrawal_is_refused_to_others_and_beyond_the_treasury() {
    let e = new_event(10, 100, 200);
    assert_eq!(withdraw(&withdraw_ctx(e.clone(), BUYER, 500), 1), Err(InstructionError::ConstraintSeeds));
    assert_eq!(
        withdraw(&withdraw_ctx(e, AUTHORITY, 500), 501),
        Err(InstructionError::Custom(ErrorCode::TreasuryVaultError))
    );
}

#[test]
fn the_authority_closes_at_any_time() {
    let e = new_event(10, 100, 200);
    let mut ctx = CerrarEvento { evento: e, authority: key(AUTHORITY) };
    assert!(cerrar_evento(&mut ctx, &Clock { unix_timestamp: 0 }).is_ok());
    assert!(!ctx.evento.open_sales);
    // Closing again changes nothing.
    let after = ctx.clone();
    assert!(cerrar_evento(&mut ctx, &Clock { unix_timestamp: 0 }).is_ok());
    assert_eq!(ctx, after);
}

#[test]
fn others_close_only_from_the_closing_time() {
    let e = new_event(10, 100, 200);
    let mut ctx = CerrarEvento { evento: e, authority: key(BUYER) };
    let before = ctx.clone();
    assert_eq!(
        cerrar_evento(&mut ctx, &Clock { unix_timestamp: 199 }),
        Err(InstructionError::Custom(ErrorCode::UstedNoPuedeCerrarElEventoAun))
    );
    assert_eq!(ctx, before);
    assert!(cerrar_evento(&mut ctx, &Clock { unix_timestamp: 200 }).is_ok());
    assert!(!ctx.evento.open_sales);
}

#[test]
fn a_closed_event_refuses_sponsors_and_buyers() {
    let e = new_event(10, 100, 200);
    let mut close = CerrarEvento { evento: e, authority: key(AUTHORITY) };
    cerrar_evento(&mut close, &Clock { unix_timestamp: 10 }).unwrap();
    assert_eq!(
        sponsor_event(&mut sponsor_ctx(close.evento.clone(), 10, buyer_ata(MINT, 9)), 1),
        Err(InstructionError::Custom(ErrorCode::VentasCerradas))
    );
    assert_eq!(
        comprar_tickets(&mut tickets_ctx(close.evento, 10, buyer_ata(MINT, 9)), 1),
        Err(InstructionError::Custom(ErrorCode::EventoCerrado))
    );
}
