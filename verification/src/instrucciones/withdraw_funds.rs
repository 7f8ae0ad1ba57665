//! Withdrawal from the event's treasury by its authority.
use vstd::prelude::*;
use crate::collections::Evento;
use crate::cuentas::{EventSigner, Pubkey, TokenAccount, TokenInstruction};
use crate::utils::errors::{ErrorCode, InstructionError};

verus! {

/// The accounts of a withdrawal, as far as the instruction reads them.
#[derive(Clone, Debug, PartialEq, Eq)]
pub struct WithdrawFunds {
    pub evento: Evento,
    /// The address of the event account.
    pub evento_key: Pubkey,
    /// The mint that the event is paid in.
    pub accepted_mint: Pubkey,
    /// The authority's account of the accepted mint, which receives.
    pub authotiry_accepted_mint_ata: Pubkey,
    /// The event's treasury, which pays.
    pub treasury_vault: TokenAccount,
    /// The signer.
    pub authority: Pubkey,
}

impl WithdrawFunds {
    /// What the checks on the accounts answer for a withdrawal of `amount`:
    /// the event must be the one derived from the signer, that is the signer
    /// must be its authority, and the treasury must hold at least `amount`.
    pub open spec fn constraints(self, amount: u64) -> Result<(), InstructionError> {
        if self.authority != self.evento.authority {
            Err(InstructionError::ConstraintSeeds)
        } else if self.treasury_vault.amount < amount {
            Err(InstructionError::Custom(ErrorCode::TreasuryVaultError))
        } else {
            Ok(())
        }
    }

    /// Checks the accounts, in the order they are declared.
    pub fn validate(&self, amount: u64) -> (r: Result<(), InstructionError>)
        ensures
            r == self.constraints(amount),
    {
        if !self.authority.equals(&self.evento.authority) {
            return Err(InstructionError::ConstraintSeeds);
        }
        if self.treasury_vault.amount < amount {
            return Err(InstructionError::Custom(ErrorCode::TreasuryVaultError));
        }
        Ok(())
    }
}

/// The token operation of a withdrawal of `amount`: from the treasury to the
/// authority's account, signed by the event.
pub open spec fn withdraw_operations(ctx: WithdrawFunds, amount: u64) -> Seq<TokenInstruction> {
    seq![
        TokenInstruction::Transfer {
            from: ctx.treasury_vault.key,
            to: ctx.authotiry_accepted_mint_ata,
            authority: ctx.evento_key,
            amount: amount,
            signer: Some(EventSigner { authority: ctx.evento.authority, bump: ctx.evento.event_bump }),
        },
    ]
}

/// Moves `amount` tokens from the treasury to the authority's account, the
/// event signing for the treasury; the event itself is not written.
pub fn handle(ctx: &WithdrawFunds, amount: u64) -> (ops: Vec<TokenInstruction>)
    ensures
        ops@ == withdraw_operations(*ctx, amount),
{
    let mut ops: Vec<TokenInstruction> = Vec::new();
    ops.push(
        TokenInstruction::Transfer {
            from: ctx.treasury_vault.key,
            to: ctx.authotiry_accepted_mint_ata,
            authority: ctx.evento_key,
            amount,
            signer: Some(ctx.evento.signer()),
        },
    );
    assert(ops@ =~= withdraw_operations(*ctx, amount));
    ops
}

} // verus!
