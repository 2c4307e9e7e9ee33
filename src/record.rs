use crate::address::Address;
use vstd::prelude::*;

verus! {

/// Bytes that an escrow record takes in its account: an eight-byte type tag,
/// three addresses, two amounts and the bump.
pub const ESCROW_SPACE: usize = 8 + 32 + 32 + 32 + 8 + 8 + 1;

/// The terms of one open trade: `amount_a` of `mint_a` locked by `maker`,
/// who wants `amount_b` of `mint_b` in return. `bump` completes the seeds of
/// the vault's authority.
#[derive(Clone, Copy, Debug, PartialEq, Eq)]
pub struct Escrow {
    pub maker: Address,
    pub mint_a: Address,
    pub mint_b: Address,
    pub amount_a: u64,
    pub amount_b: u64,
    pub bump: u8,
}

pub ghost struct EscrowView {
    pub maker: Seq<u8>,
    pub mint_a: Seq<u8>,
    pub mint_b: Seq<u8>,
    pub amount_a: u64,
    pub amount_b: u64,
    pub bump: u8,
}

impl View for Escrow {
    type V = EscrowView;

    open spec fn view(&self) -> EscrowView {
        EscrowView {
            maker: self.maker@,
            mint_a: self.mint_a@,
            mint_b: self.mint_b@,
            amount_a: self.amount_a,
            amount_b: self.amount_b,
            bump: self.bump,
        }
    }
}

/// A holding of one asset: its mint, the address that may move it, and the
/// amount.
#[derive(Clone, Copy, Debug, PartialEq, Eq)]
pub struct TokenAccount {
    pub mint: Address,
    pub owner: Address,
    pub amount: u64,
}

pub ghost struct TokenAccountView {
    pub mint: Seq<u8>,
    pub owner: Seq<u8>,
    pub amount: u64,
}

impl View for TokenAccount {
    type V = TokenAccountView;

    open spec fn view(&self) -> TokenAccountView {
        TokenAccountView { mint: self.mint@, owner: self.owner@, amount: self.amount }
    }
}

/// Why an operation was refused. A refused operation changes nothing.
#[derive(Clone, Copy, Debug, PartialEq, Eq, Structural)]
pub enum EscrowError {
    /// A token account that the operation names does not exist.
    AccountNotFound,
    /// An account to be created is already in use.
    AccountInUse,
    /// No open escrow record stands at the address.
    EscrowNotFound,
    /// The maker named does not match the record's maker.
    MakerMismatch,
    /// The source holds less than the amount to move.
    InsufficientFunds,
    /// The payer cannot cover an account's storage deposit.
    InsufficientLamports,
    /// The two token accounts hold different assets.
    MintMismatch,
    /// The authority given does not own the source account.
    OwnerMismatch,
    /// A token account to be closed still holds a balance.
    NonZeroBalance,
    /// An account was named as the destination of its own closing.
    InvalidAccount,
    /// A balance would exceed the 64-bit range.
    Overflow,
    /// No bump gives a program address for the vault's seeds.
    NoViableBump,
    /// The stored bump no longer gives a program address.
    InvalidSeeds,
    /// The party who must sign the request did not.
    MissingSignature,
    /// An account named as a mint is not one.
    NotAMint,
    /// A token account named does not hold the trade's asset for the right
    /// owner.
    WrongAccount,
}

} // verus!
