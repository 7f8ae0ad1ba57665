//! The errors that the event instructions answer with.
use vstd::prelude::*;

verus! {

/// The number that the first custom error of a program is reported under;
/// each later variant is reported under the next number.
pub const ERROR_CODE_OFFSET: u32 = 6000;

/// The program's own errors, in the order that fixes their numbers.
#[derive(Clone, Copy, Debug, PartialEq, Eq)]
pub enum ErrorCode {
    /// Sponsoring was asked of an event whose sales are closed.
    VentasCerradas,
    /// A sponsorship or a purchase was asked once the closing time was reached.
    SeCierranLasVentas,
    /// Tickets were asked of an event whose sales are closed.
    EventoCerrado,
    /// The buyer's token account holds another mint than the event accepts.
    MintNoCoincide,
    /// The buyer's token account is empty.
    FondosInsuficientes,
    /// The treasury holds less than the amount asked for.
    TreasuryVaultError,
    /// The signer may not act on this event.
    Unauthorized,
    /// Closing was asked by someone other than the authority before the closing time.
    UstedNoPuedeCerrarElEventoAun,
}

impl ErrorCode {
    /// The position of the variant in the declaration.
    pub open spec fn ordinal(self) -> nat {
        match self {
            ErrorCode::VentasCerradas => 0,
            ErrorCode::SeCierranLasVentas => 1,
            ErrorCode::EventoCerrado => 2,
            ErrorCode::MintNoCoincide => 3,
            ErrorCode::FondosInsuficientes => 4,
            ErrorCode::TreasuryVaultError => 5,
            ErrorCode::Unauthorized => 6,
            ErrorCode::UstedNoPuedeCerrarElEventoAun => 7,
        }
    }

    /// The number the error is reported under.
    pub fn code(&self) -> (c: u32)
        ensures
            c == ERROR_CODE_OFFSET + self.ordinal(),
    {
        match self {
            ErrorCode::VentasCerradas => ERROR_CODE_OFFSET,
            ErrorCode::SeCierranLasVentas => ERROR_CODE_OFFSET + 1,
            ErrorCode::EventoCerrado => ERROR_CODE_OFFSET + 2,
            ErrorCode::MintNoCoincide => ERROR_CODE_OFFSET + 3,
            ErrorCode::FondosInsuficientes => ERROR_CODE_OFFSET + 4,
            ErrorCode::TreasuryVaultError => ERROR_CODE_OFFSET + 5,
            ErrorCode::Unauthorized => ERROR_CODE_OFFSET + 6,
            ErrorCode::UstedNoPuedeCerrarElEventoAun => ERROR_CODE_OFFSET + 7,
        }
    }

    /// The text the error is reported with: its message where it has one,
    /// else the name of the variant.
    pub fn msg(&self) -> (m: String)
        ensures
            m@ == match self {
                ErrorCode::VentasCerradas => "La venta de tokens está cerrada."@,
                ErrorCode::SeCierranLasVentas =>
                    "El periodo de ventas acaba de finalizar y las ventas se encuentran cerradas"@,
                ErrorCode::EventoCerrado => "La venta de tickets esta cerrada"@,
                ErrorCode::MintNoCoincide => "MintNoCoincide"@,
                ErrorCode::FondosInsuficientes => "FondosInsuficientes"@,
                ErrorCode::TreasuryVaultError => "TreasuryVaultError"@,
                ErrorCode::Unauthorized => "Unauthorized"@,
                ErrorCode::UstedNoPuedeCerrarElEventoAun => "UstedNoPuedeCerrarElEventoAun"@,
            },
    {
        match self {
            ErrorCode::VentasCerradas => "La venta de tokens está cerrada.".to_owned(),
            ErrorCode::SeCierranLasVentas =>
                "El periodo de ventas acaba de finalizar y las ventas se encuentran cerradas".to_owned(),
            ErrorCode::EventoCerrado => "La venta de tickets esta cerrada".to_owned(),
            ErrorCode::MintNoCoincide => "MintNoCoincide".to_owned(),
            ErrorCode::FondosInsuficientes => "FondosInsuficientes".to_owned(),
            ErrorCode::TreasuryVaultError => "TreasuryVaultError".to_owned(),
            ErrorCode::Unauthorized => "Unauthorized".to_owned(),
            ErrorCode::UstedNoPuedeCerrarElEventoAun => "UstedNoPuedeCerrarElEventoAun".to_owned(),
        }
    }
}

/// Why an instruction was refused: one of the program's own errors, or a
/// check of the account layer.
#[derive(Clone, Copy, Debug, PartialEq, Eq)]
pub enum InstructionError {
    /// One of the program's own errors.
    Custom(ErrorCode),
    /// A constraint written on an account was not met.
    ConstraintRaw,
    /// The event account is not the one derived from the signer.
    ConstraintSeeds,
    /// The event account could not hold what was to be written into it.
    AccountDidNotSerialize,
}

/// Distinct errors are reported under distinct numbers.
pub proof fn lemma_codes_distinct(a: ErrorCode, b: ErrorCode)
    requires
        a != b,
    ensures
        ERROR_CODE_OFFSET + a.ordinal() != ERROR_CODE_OFFSET + b.ordinal(),
{
}

} // verus!
