use vstd::prelude::*;

verus! {

/// Why an instruction was rejected. A rejected instruction changes nothing.
#[derive(Clone, Copy, Debug, PartialEq, Eq, Structural)]
pub enum EscrowError {
    /// A referenced account does not exist (an offer already taken, or never made).
    AccountNotFound,
    /// An account that the instruction creates already exists.
    AddressInUse,
    /// A supplied account does not match the identity, mint or owner that it must have.
    ConstraintMismatch,
    /// A supplied address is not the one that the seeds derive.
    SeedsMismatch,
    /// No program address can be derived from the seeds.
    DerivationFailed,
    /// A token account holds less than the amount to move.
    InsufficientFunds,
    /// A payer holds fewer lamports than the deposit of the account it creates.
    InsufficientLamports,
    /// A token account still holds tokens and cannot be closed.
    NonZeroBalance,
    /// A balance would exceed its integer range.
    Overflow,
    /// The authority of a token account did not sign.
    MissingSignature,
}

} // verus!
