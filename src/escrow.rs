use crate::address::Address;
use crate::authority::{
    create_program_address, created_program_address, find_program_address, found_program_address,
    rent_exempt_minimum, seeds_view, token_account_len,
};
use crate::ledger::{
    close_escrow_spec, close_token_spec, create_account_spec, outcome, transfer_spec, Ledger,
    LedgerView,
};
use crate::record::{Escrow, EscrowError, EscrowView, TokenAccount, TokenAccountView, ESCROW_SPACE};
use vstd::prelude::*;

verus! {

/// Bytes of a token account.
pub const TOKEN_ACCOUNT_SPACE: usize = 165;

/// The lamports that keep an account of `len` bytes exempt from rent.
pub open spec fn rent_exempt(len: nat) -> u64 {
    (6960 * (128 + len)) as u64
}

/// The seed tag of every vault: the bytes of "vault".
pub open spec fn vault_tag() -> Seq<u8> {
    seq![118u8, 97u8, 117u8, 108u8, 116u8]
}

/// The seeds from which the vault of the escrow at `escrow` is derived.
pub open spec fn vault_seeds(escrow: Seq<u8>) -> Seq<Seq<u8>> {
    seq![vault_tag(), escrow]
}

/// The vault's seeds completed by its bump: they sign for the vault.
pub open spec fn signer_seeds(escrow: Seq<u8>, bump: u8) -> Seq<Seq<u8>> {
    vault_seeds(escrow).push(seq![bump])
}

/// The accounts that opening an escrow names.
#[derive(Clone, Copy, Debug)]
pub struct Make {
    /// Signs, pays the storage deposits and gives the asset A.
    pub maker: Address,
    pub mint_a: Address,
    pub mint_b: Address,
    /// Tells apart the escrows of one maker on one pair of mints; with them
    /// it derives the record's address.
    pub attempt: u64,
    /// The maker's holding of asset A.
    pub maker_ata_a: Address,
}

/// The accounts that settling an escrow names.
#[derive(Clone, Copy, Debug)]
pub struct Take {
    /// Signs and gives the asset B.
    pub taker: Address,
    pub escrow: Address,
    /// Must be the record's maker; receives the storage deposits.
    pub maker: Address,
    /// The taker's holding of asset A, which receives the vault's content.
    pub taker_ata_a: Address,
    /// The taker's holding of asset B, which pays the maker.
    pub taker_ata_b: Address,
    /// The maker's holding of asset B.
    pub maker_ata_b: Address,
}

/// The accounts that cancelling an escrow names.
#[derive(Clone, Copy, Debug)]
pub struct Refund {
    /// Signs, must be the record's maker, and receives the storage deposits.
    pub maker: Address,
    pub escrow: Address,
    /// The maker's holding of asset A, which receives the vault's content.
    pub maker_ata_a: Address,
}

/// The seed tag of every escrow record: the bytes of "escrow".
pub open spec fn escrow_tag() -> Seq<u8> {
    seq![101u8, 115u8, 99u8, 114u8, 111u8, 119u8]
}

/// The eight little-endian bytes of `n`.
pub open spec fn le_bytes(n: u64) -> Seq<u8> {
    seq![
        (n & 0xff) as u8,
        ((n >> 8u64) & 0xff) as u8,
        ((n >> 16u64) & 0xff) as u8,
        ((n >> 24u64) & 0xff) as u8,
        ((n >> 32u64) & 0xff) as u8,
        ((n >> 40u64) & 0xff) as u8,
        ((n >> 48u64) & 0xff) as u8,
        ((n >> 56u64) & 0xff) as u8,
    ]
}

/// The seeds from which the address of an escrow record is derived.
pub open spec fn escrow_seeds(maker: Seq<u8>, mint_a: Seq<u8>, mint_b: Seq<u8>, attempt: u64) -> Seq<Seq<u8>> {
    seq![escrow_tag(), maker, mint_a, mint_b, le_bytes(attempt)]
}

/// The address, with its bump, reserved for the escrow that `a` opens.
pub open spec fn escrow_found(v: LedgerView, a: Make) -> Option<(Seq<u8>, u8)> {
    found_program_address(escrow_seeds(a.maker@, a.mint_a@, a.mint_b@, a.attempt), v.program)
}

/// The address of the escrow that `a` opens, where one is found.
pub open spec fn escrow_of(v: LedgerView, a: Make) -> Seq<u8> {
    escrow_found(v, a)->Some_0.0
}

/// The vault that the escrow at `escrow` gets when it is opened.
pub open spec fn vault_found(v: LedgerView, escrow: Seq<u8>) -> Option<(Seq<u8>, u8)> {
    found_program_address(vault_seeds(escrow), v.program)
}

/// The address that signs for the vault of the open escrow at `escrow`.
pub open spec fn vault_signer(v: LedgerView, escrow: Seq<u8>) -> Option<Seq<u8>> {
    created_program_address(signer_seeds(escrow, v.escrows[escrow].bump), v.program)
}

/// Token account `k` holds `mint` for `owner`.
pub open spec fn holds(v: LedgerView, k: Seq<u8>, owner: Seq<u8>, mint: Seq<u8>) -> bool {
    v.tokens.contains_key(k) && v.tokens[k].owner == owner && v.tokens[k].mint == mint
}

/// Opening an escrow: it must be signed by the maker and name two mints;
/// then the record's account and the vault are funded by the
/// maker, the vault is set up for asset A under its own derived authority,
/// the record is stored, and `amount_a` moves from the maker to the vault.
pub open spec fn make_spec(v: LedgerView, a: Make, signer: Seq<u8>, amount_a: u64, amount_b: u64) -> Result<
    LedgerView,
    EscrowError,
> {
    if signer != a.maker@ {
        Err(EscrowError::MissingSignature)
    } else if !v.mints.contains_key(a.mint_a@) || !v.mints.contains_key(a.mint_b@) {
        Err(EscrowError::NotAMint)
    } else {
        match escrow_found(v, a) {
            None => Err(EscrowError::NoViableBump),
            Some((escrow, _)) => make_accounts_spec(v, a, escrow, amount_a, amount_b),
        }
    }
}

/// The accounts of a new escrow are created and funded; see `make_spec`.
pub open spec fn make_accounts_spec(v: LedgerView, a: Make, escrow: Seq<u8>, amount_a: u64, amount_b: u64) -> Result<
    LedgerView,
    EscrowError,
> {
    match create_account_spec(v, a.maker@, escrow, rent_exempt(ESCROW_SPACE as nat)) {
        Err(e) => Err(e),
        Ok(v1) => match vault_found(v, escrow) {
            None => Err(EscrowError::NoViableBump),
            Some((vault, bump)) => match create_account_spec(
                v1,
                a.maker@,
                vault,
                rent_exempt(TOKEN_ACCOUNT_SPACE as nat),
            ) {
                Err(e) => Err(e),
                Ok(v2) => transfer_spec(
                    LedgerView {
                        tokens: v2.tokens.insert(
                            vault,
                            TokenAccountView { mint: a.mint_a@, owner: vault, amount: 0 },
                        ),
                        escrows: v2.escrows.insert(
                            escrow,
                            EscrowView {
                                maker: a.maker@,
                                mint_a: a.mint_a@,
                                mint_b: a.mint_b@,
                                amount_a,
                                amount_b,
                                bump,
                            },
                        ),
                        ..v2
                    },
                    a.maker_ata_a@,
                    vault,
                    a.maker@,
                    amount_a,
                ),
            },
        },
    }
}

/// Settling an escrow: it must be signed by the taker, the record must name
/// the given maker, the maker's asset-B account must hold the record's
/// `mint_b` for the maker, and the taker's accounts must hold `mint_b` and
/// `mint_a` for the taker; then `amount_b` moves from the taker to the maker, the vault's `amount_a` moves to the
/// taker on the vault's derived authority, then the vault and the record
/// are closed with their lamports going to the maker.
pub open spec fn take_spec(v: LedgerView, a: Take, signer: Seq<u8>) -> Result<LedgerView, EscrowError> {
    if signer != a.taker@ {
        Err(EscrowError::MissingSignature)
    } else if !v.escrows.contains_key(a.escrow@) {
        Err(EscrowError::EscrowNotFound)
    } else if v.escrows[a.escrow@].maker != a.maker@ {
        Err(EscrowError::MakerMismatch)
    } else if !holds(v, a.maker_ata_b@, a.maker@, v.escrows[a.escrow@].mint_b) || !holds(
        v,
        a.taker_ata_b@,
        a.taker@,
        v.escrows[a.escrow@].mint_b,
    ) || !holds(v, a.taker_ata_a@, a.taker@, v.escrows[a.escrow@].mint_a) {
        Err(EscrowError::WrongAccount)
    } else {
        let rec = v.escrows[a.escrow@];
        match vault_signer(v, a.escrow@) {
            None => Err(EscrowError::InvalidSeeds),
            Some(vault) => match transfer_spec(v, a.taker_ata_b@, a.maker_ata_b@, a.taker@, rec.amount_b) {
                Err(e) => Err(e),
                Ok(v1) => match transfer_spec(v1, vault, a.taker_ata_a@, vault, rec.amount_a) {
                    Err(e) => Err(e),
                    Ok(v2) => match close_token_spec(v2, vault, a.maker@, vault) {
                        Err(e) => Err(e),
                        Ok(v3) => close_escrow_spec(v3, a.escrow@, a.maker@),
                    },
                },
            },
        }
    }
}

/// Cancelling an escrow: it must be signed by the maker, the record must
/// name that maker, and the destination must hold the record's `mint_a` for
/// the maker; then the vault's
/// `amount_a` moves back to the maker on the vault's derived authority, then
/// the vault and the record are closed with their lamports going to the
/// maker.
pub open spec fn refund_spec(v: LedgerView, a: Refund, signer: Seq<u8>) -> Result<LedgerView, EscrowError> {
    if signer != a.maker@ {
        Err(EscrowError::MissingSignature)
    } else if !v.escrows.contains_key(a.escrow@) {
        Err(EscrowError::EscrowNotFound)
    } else if v.escrows[a.escrow@].maker != a.maker@ {
        Err(EscrowError::MakerMismatch)
    } else if !holds(v, a.maker_ata_a@, a.maker@, v.escrows[a.escrow@].mint_a) {
        Err(EscrowError::WrongAccount)
    } else {
        let rec = v.escrows[a.escrow@];
        match vault_signer(v, a.escrow@) {
            None => Err(EscrowError::InvalidSeeds),
            Some(vault) => match transfer_spec(v, vault, a.maker_ata_a@, vault, rec.amount_a) {
                Err(e) => Err(e),
                Ok(v1) => match close_token_spec(v1, vault, a.maker@, vault) {
                    Err(e) => Err(e),
                    Ok(v2) => close_escrow_spec(v2, a.escrow@, a.maker@),
                },
            },
        }
    }
}

fn address_vec(a: &Address) -> (r: Vec<u8>)
    ensures
        r@ == a@,
{
    broadcast use vstd::array::group_array_axioms;
    let mut r: Vec<u8> = Vec::new();
    let mut i: usize = 0;
    while i < 32
        invariant
            0 <= i <= 32,
            a@.len() == 32,
            r@ == a@.subrange(0, i as int),
        decreases 32 - i,
    {
        r.push(a.bytes[i]);
        i = i + 1;
        assert(r@ =~= a@.subrange(0, i as int));
    }
    assert(r@ =~= a@);
    r
}

fn escrow_seed_vec(maker: &Address, mint_a: &Address, mint_b: &Address, attempt: u64) -> (r: Vec<Vec<u8>>)
    ensures
        seeds_view(r@) == escrow_seeds(maker@, mint_a@, mint_b@, attempt),
{
    let tag: Vec<u8> = vec![101u8, 115u8, 99u8, 114u8, 111u8, 119u8];
    assert(tag@ =~= escrow_tag());
    let n: Vec<u8> = vec![
        (attempt & 0xff) as u8,
        ((attempt >> 8u64) & 0xff) as u8,
        ((attempt >> 16u64) & 0xff) as u8,
        ((attempt >> 24u64) & 0xff) as u8,
        ((attempt >> 32u64) & 0xff) as u8,
        ((attempt >> 40u64) & 0xff) as u8,
        ((attempt >> 48u64) & 0xff) as u8,
        ((attempt >> 56u64) & 0xff) as u8,
    ];
    assert(n@ =~= le_bytes(attempt));
    let r = vec![tag, address_vec(maker), address_vec(mint_a), address_vec(mint_b), n];
    assert(seeds_view(r@) =~= escrow_seeds(maker@, mint_a@, mint_b@, attempt));
    r
}

fn vault_seed_vec(escrow: &Address) -> (r: Vec<Vec<u8>>)
    ensures
        seeds_view(r@) == vault_seeds(escrow@),
{
    let tag: Vec<u8> = vec![118u8, 97u8, 117u8, 108u8, 116u8];
    let key = address_vec(escrow);
    assert(tag@ =~= vault_tag());
    let r = vec![tag, key];
    assert(seeds_view(r@) =~= vault_seeds(escrow@));
    r
}

fn signer_seed_vec(escrow: &Address, bump: u8) -> (r: Vec<Vec<u8>>)
    ensures
        seeds_view(r@) == signer_seeds(escrow@, bump),
{
    let mut r = vault_seed_vec(escrow);
    let ghost before = r@;
    let b: Vec<u8> = vec![bump];
    assert(b@ =~= seq![bump]);
    r.push(b);
    assert(seeds_view(r@) =~= seeds_view(before).push(seq![bump]));
    r
}

/// Opens an escrow on a request signed by `signer` and returns the
/// escrow's address. Its vault is the one that `vault_of` gives.
pub fn make(ledger: &mut Ledger, accounts: &Make, signer: &Address, amount_a: u64, amount_b: u64) -> (r: Result<Address, EscrowError>)
    requires
        old(ledger).wf(),
    ensures
        final(ledger).wf(),
        outcome(r, make_spec(old(ledger)@, *accounts, signer@, amount_a, amount_b), old(ledger)@, final(ledger)@),
        r matches Ok(e) ==> (escrow_found(old(ledger)@, *accounts) matches Some((k, _)) && k == e@),
        r matches Ok(e) ==> (vault_found(old(ledger)@, e@) matches Some((k, _))
            && vault_signer(final(ledger)@, e@) == Some(k)),
{
    if !signer.same(&accounts.maker) {
        return Err(EscrowError::MissingSignature);
    }
    if !ledger.is_mint(&accounts.mint_a) || !ledger.is_mint(&accounts.mint_b) {
        return Err(EscrowError::NotAMint);
    }
    let program = ledger.program_id();
    let escrow_seeds = escrow_seed_vec(
        &accounts.maker,
        &accounts.mint_a,
        &accounts.mint_b,
        accounts.attempt,
    );
    let escrow = match find_program_address(&escrow_seeds, &program) {
        Some((escrow, _)) => escrow,
        None => return Err(EscrowError::NoViableBump),
    };
    let mut next = ledger.duplicate();
    let escrow_deposit = rent_exempt_minimum(ESCROW_SPACE);
    match next.create_account(&accounts.maker, &escrow, escrow_deposit) {
        Err(e) => return Err(e),
        Ok(()) => {},
    }
    let seeds = vault_seed_vec(&escrow);
    let (vault, bump) = match find_program_address(&seeds, &program) {
        Some(found) => found,
        None => return Err(EscrowError::NoViableBump),
    };
    let vault_deposit = rent_exempt_minimum(token_account_len());
    match next.create_account(&accounts.maker, &vault, vault_deposit) {
        Err(e) => return Err(e),
        Ok(()) => {},
    }
    next.put_token_account(&vault, TokenAccount { mint: accounts.mint_a, owner: vault, amount: 0 });
    next.put_escrow(
        &escrow,
        Escrow {
            maker: accounts.maker,
            mint_a: accounts.mint_a,
            mint_b: accounts.mint_b,
            amount_a,
            amount_b,
            bump,
        },
    );
    match next.transfer(&accounts.maker_ata_a, &vault, &accounts.maker, amount_a) {
        Err(e) => return Err(e),
        Ok(()) => {},
    }
    assert(seeds_view(seeds@).push(seq![bump]) == signer_seeds(escrow@, bump));
    *ledger = next;
    Ok(escrow)
}

/// Settles an open escrow: the taker pays the maker in asset B and receives
/// the vault's asset A; the vault and the record are retired.
pub fn take(ledger: &mut Ledger, accounts: &Take, signer: &Address) -> (r: Result<(), EscrowError>)
    requires
        old(ledger).wf(),
    ensures
        final(ledger).wf(),
        outcome(r, take_spec(old(ledger)@, *accounts, signer@), old(ledger)@, final(ledger)@),
{
    if !signer.same(&accounts.taker) {
        return Err(EscrowError::MissingSignature);
    }
    let rec = match ledger.escrow(&accounts.escrow) {
        Some(rec) => rec,
        None => return Err(EscrowError::EscrowNotFound),
    };
    if !rec.maker.same(&accounts.maker) {
        return Err(EscrowError::MakerMismatch);
    }
    if !ledger.holds(&accounts.maker_ata_b, &accounts.maker, &rec.mint_b) || !ledger.holds(
        &accounts.taker_ata_b,
        &accounts.taker,
        &rec.mint_b,
    ) || !ledger.holds(&accounts.taker_ata_a, &accounts.taker, &rec.mint_a) {
        return Err(EscrowError::WrongAccount);
    }
    let program = ledger.program_id();
    let seeds = signer_seed_vec(&accounts.escrow, rec.bump);
    let vault = match create_program_address(&seeds, &program) {
        Ok(vault) => vault,
        Err(_) => return Err(EscrowError::InvalidSeeds),
    };
    let mut next = ledger.duplicate();
    match next.transfer(&accounts.taker_ata_b, &accounts.maker_ata_b, &accounts.taker, rec.amount_b) {
        Err(e) => return Err(e),
        Ok(()) => {},
    }
    match next.transfer(&vault, &accounts.taker_ata_a, &vault, rec.amount_a) {
        Err(e) => return Err(e),
        Ok(()) => {},
    }
    match next.close_token_account(&vault, &accounts.maker, &vault) {
        Err(e) => return Err(e),
        Ok(()) => {},
    }
    match next.close_escrow(&accounts.escrow, &accounts.maker) {
        Err(e) => return Err(e),
        Ok(()) => {},
    }
    *ledger = next;
    Ok(())
}

/// Cancels an open escrow: the vault's asset A returns to the maker; the
/// vault and the record are retired.
pub fn refund(ledger: &mut Ledger, accounts: &Refund, signer: &Address) -> (r: Result<(), EscrowError>)
    requires
        old(ledger).wf(),
    ensures
        final(ledger).wf(),
        outcome(r, refund_spec(old(ledger)@, *accounts, signer@), old(ledger)@, final(ledger)@),
{
    if !signer.same(&accounts.maker) {
        return Err(EscrowError::MissingSignature);
    }
    let rec = match ledger.escrow(&accounts.escrow) {
        Some(rec) => rec,
        None => return Err(EscrowError::EscrowNotFound),
    };
    if !rec.maker.same(&accounts.maker) {
        return Err(EscrowError::MakerMismatch);
    }
    if !ledger.holds(&accounts.maker_ata_a, &accounts.maker, &rec.mint_a) {
        return Err(EscrowError::WrongAccount);
    }
    let program = ledger.program_id();
    let seeds = signer_seed_vec(&accounts.escrow, rec.bump);
    let vault = match create_program_address(&seeds, &program) {
        Ok(vault) => vault,
        Err(_) => return Err(EscrowError::InvalidSeeds),
    };
    let mut next = ledger.duplicate();
    match next.transfer(&vault, &accounts.maker_ata_a, &vault, rec.amount_a) {
        Err(e) => return Err(e),
        Ok(()) => {},
    }
    match next.close_token_account(&vault, &accounts.maker, &vault) {
        Err(e) => return Err(e),
        Ok(()) => {},
    }
    match next.close_escrow(&accounts.escrow, &accounts.maker) {
        Err(e) => return Err(e),
        Ok(()) => {},
    }
    *ledger = next;
    Ok(())
}

/// The vault of the open escrow at `escrow`: the address that its stored
/// bump derives.
pub fn vault_of(ledger: &Ledger, escrow: &Address) -> (r: Option<Address>)
    requires
        ledger.wf(),
    ensures
        match r {
            Some(k) => ledger@.escrows.contains_key(escrow@) && vault_signer(ledger@, escrow@) == Some(k@),
            None => !ledger@.escrows.contains_key(escrow@) || vault_signer(ledger@, escrow@) is None,
        },
{
    let rec = match ledger.escrow(escrow) {
        Some(rec) => rec,
        None => return None,
    };
    let program = ledger.program_id();
    let seeds = signer_seed_vec(escrow, rec.bump);
    match create_program_address(&seeds, &program) {
        Ok(vault) => Some(vault),
        Err(_) => None,
    }
}

} // verus!
