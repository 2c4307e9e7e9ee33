use crate::escrow::{
    escrow_found, escrow_of, holds, make_spec, refund_spec, rent_exempt, take_spec, vault_found, vault_signer, Make, Refund,
    Take, TOKEN_ACCOUNT_SPACE,
};
use crate::ledger::{in_use, lamports_of, LedgerView};
use crate::record::{EscrowError, EscrowView, ESCROW_SPACE};
use vstd::prelude::*;

verus! {

/// Opening an escrow with positive amounts, signed by the maker, naming two
/// mints, at an unused address, from a holding of asset A that covers
/// `amount_a`, succeeds where the maker can pay both storage deposits and
/// the vault's derived address is unused. It leaves exactly `amount_a` of
/// asset A in a vault that the vault's own address owns, and stores the
/// terms exactly as given.
pub proof fn lemma_make_locks_amount(v: LedgerView, a: Make, amount_a: u64, amount_b: u64)
    requires
        amount_a > 0,
        amount_b > 0,
        v.mints.contains_key(a.mint_a@),
        v.mints.contains_key(a.mint_b@),
        escrow_found(v, a) matches Some((escrow, _)) && !in_use(v, escrow),
        holds(v, a.maker_ata_a@, a.maker@, a.mint_a@),
        v.tokens[a.maker_ata_a@].amount >= amount_a,
        lamports_of(v.lamports, a.maker@) >= rent_exempt(ESCROW_SPACE as nat) + rent_exempt(
            TOKEN_ACCOUNT_SPACE as nat,
        ),
        vault_found(v, escrow_of(v, a)) matches Some((vault, _)) && !in_use(v, vault) && vault
            != escrow_of(v, a),
    ensures
        make_spec(v, a, a.maker@, amount_a, amount_b) is Ok,
        vault_found(v, escrow_of(v, a)) matches Some((vault, bump)) && ({
            let w = make_spec(v, a, a.maker@, amount_a, amount_b)->Ok_0;
            &&& w.tokens.contains_key(vault)
            &&& w.tokens[vault].amount == amount_a
            &&& w.tokens[vault].mint == a.mint_a@
            &&& w.tokens[vault].owner == vault
            &&& w.escrows.contains_key(escrow_of(v, a))
            &&& w.escrows[escrow_of(v, a)] == (EscrowView {
                maker: a.maker@,
                mint_a: a.mint_a@,
                mint_b: a.mint_b@,
                amount_a,
                amount_b,
                bump,
            })
        }),
{
}

/// Settling an open escrow retires the record and the vault, credits the
/// taker with `amount_a` of asset A and the maker with `amount_b` of asset B,
/// debits the taker's asset B by `amount_b`, and hands both storage deposits
/// to the maker. The three token accounts named must be distinct and none of
/// them the vault, nor the vault the record.
pub proof fn lemma_take_settles(v: LedgerView, a: Take)
    requires
        take_spec(v, a, a.taker@) is Ok,
        vault_signer(v, a.escrow@) matches Some(vault) && vault != a.taker_ata_a@ && vault
            != a.taker_ata_b@ && vault != a.maker_ata_b@ && vault != a.escrow@,
        a.taker_ata_a@ != a.taker_ata_b@,
        a.taker_ata_a@ != a.maker_ata_b@,
        a.taker_ata_b@ != a.maker_ata_b@,
    ensures
        ({
            let w = take_spec(v, a, a.taker@)->Ok_0;
            let rec = v.escrows[a.escrow@];
            let vault = vault_signer(v, a.escrow@)->Some_0;
            &&& !w.escrows.contains_key(a.escrow@)
            &&& !w.tokens.contains_key(vault)
            &&& !w.lamports.contains_key(vault)
            &&& !w.lamports.contains_key(a.escrow@)
            &&& w.tokens[a.taker_ata_a@].amount == v.tokens[a.taker_ata_a@].amount + rec.amount_a
            &&& w.tokens[a.taker_ata_b@].amount == v.tokens[a.taker_ata_b@].amount - rec.amount_b
            &&& w.tokens[a.maker_ata_b@].amount == v.tokens[a.maker_ata_b@].amount + rec.amount_b
            &&& lamports_of(w.lamports, a.maker@) == lamports_of(v.lamports, a.maker@)
                + lamports_of(v.lamports, vault) + lamports_of(v.lamports, a.escrow@)
        }),
{
}

/// Cancelling an open escrow retires the record and the vault, returns
/// exactly `amount_a` of asset A to the maker and hands both storage deposits
/// to the maker. The maker's account must be neither the vault nor the
/// record, nor the vault the record.
pub proof fn lemma_refund_returns(v: LedgerView, a: Refund)
    requires
        refund_spec(v, a, a.maker@) is Ok,
        vault_signer(v, a.escrow@) matches Some(vault) && vault != a.maker_ata_a@ && vault
            != a.escrow@,
    ensures
        ({
            let w = refund_spec(v, a, a.maker@)->Ok_0;
            let rec = v.escrows[a.escrow@];
            let vault = vault_signer(v, a.escrow@)->Some_0;
            &&& !w.escrows.contains_key(a.escrow@)
            &&& !w.tokens.contains_key(vault)
            &&& !w.lamports.contains_key(vault)
            &&& !w.lamports.contains_key(a.escrow@)
            &&& w.tokens[a.maker_ata_a@].amount == v.tokens[a.maker_ata_a@].amount + rec.amount_a
            &&& lamports_of(w.lamports, a.maker@) == lamports_of(v.lamports, a.maker@)
                + lamports_of(v.lamports, vault) + lamports_of(v.lamports, a.escrow@)
        }),
{
}

/// Once an escrow is settled, neither settling nor cancelling it again
/// succeeds: both find no record.
pub proof fn lemma_take_is_final(v: LedgerView, a: Take, again: Take, cancel: Refund)
    requires
        take_spec(v, a, a.taker@) is Ok,
        again.escrow@ == a.escrow@,
        cancel.escrow@ == a.escrow@,
    ensures
        take_spec(take_spec(v, a, a.taker@)->Ok_0, again, again.taker@) == Err::<LedgerView, EscrowError>(EscrowError::EscrowNotFound),
        refund_spec(take_spec(v, a, a.taker@)->Ok_0, cancel, cancel.maker@) == Err::<LedgerView, EscrowError>(EscrowError::EscrowNotFound),
{
}

/// Once an escrow is cancelled, neither settling nor cancelling it again
/// succeeds: both find no record.
pub proof fn lemma_refund_is_final(v: LedgerView, a: Refund, settle: Take, again: Refund)
    requires
        refund_spec(v, a, a.maker@) is Ok,
        settle.escrow@ == a.escrow@,
        again.escrow@ == a.escrow@,
    ensures
        take_spec(refund_spec(v, a, a.maker@)->Ok_0, settle, settle.taker@) == Err::<LedgerView, EscrowError>(EscrowError::EscrowNotFound),
        refund_spec(refund_spec(v, a, a.maker@)->Ok_0, again, again.maker@) == Err::<LedgerView, EscrowError>(EscrowError::EscrowNotFound),
{
}

/// Settling with a maker other than the record's is refused for that reason
/// alone, before anything moves.
pub proof fn lemma_take_checks_maker(v: LedgerView, a: Take)
    requires
        v.escrows.contains_key(a.escrow@),
        v.escrows[a.escrow@].maker != a.maker@,
    ensures
        take_spec(v, a, a.taker@) == Err::<LedgerView, EscrowError>(EscrowError::MakerMismatch),
{
}

/// Opening a second escrow for the same maker, mints and attempt, which is
/// reserved the same address, is refused as a collision.
pub proof fn lemma_make_collides(v: LedgerView, a: Make, x: u64, y: u64, b: Make, x2: u64, y2: u64)
    requires
        make_spec(v, a, a.maker@, x, y) is Ok,
        b.maker@ == a.maker@,
        b.mint_a@ == a.mint_a@,
        b.mint_b@ == a.mint_b@,
        b.attempt == a.attempt,
        v.mints.contains_key(b.mint_a@),
        v.mints.contains_key(b.mint_b@),
    ensures
        make_spec(make_spec(v, a, a.maker@, x, y)->Ok_0, b, b.maker@, x2, y2) == Err::<LedgerView, EscrowError>(EscrowError::AccountInUse),
{
}

/// Opening an escrow and then cancelling it, with the same maker and an
/// asset-A account that the maker owns, always succeeds and leaves the ledger exactly as it was before
/// the opening, but for the escrow's address, which stays retired: every
/// balance, every deposit and every record. The vault's
/// signer is the vault, as `make` guarantees.
pub proof fn lemma_make_then_refund_restores(v: LedgerView, a: Make, amount_a: u64, amount_b: u64, r: Refund)
    requires
        make_spec(v, a, a.maker@, amount_a, amount_b) is Ok,
        holds(v, a.maker_ata_a@, a.maker@, a.mint_a@),
        r.maker@ == a.maker@,
        r.escrow@ == escrow_of(v, a),
        r.maker_ata_a@ == a.maker_ata_a@,
        vault_signer(make_spec(v, a, a.maker@, amount_a, amount_b)->Ok_0, escrow_of(v, a)) == Some(
            vault_found(v, escrow_of(v, a))->Some_0.0,
        ),
    ensures
        refund_spec(
            make_spec(v, a, a.maker@, amount_a, amount_b)->Ok_0,
            r,
            a.maker@,
        ) == Ok::<LedgerView, EscrowError>(LedgerView { retired: v.retired.insert(escrow_of(v, a)), ..v }),
{
    let w = make_spec(v, a, a.maker@, amount_a, amount_b)->Ok_0;
    let u = refund_spec(w, r, a.maker@)->Ok_0;
    assert(refund_spec(w, r, a.maker@) is Ok);
    assert(u.tokens =~= v.tokens);
    assert(u.lamports =~= v.lamports);
    assert(u.escrows =~= v.escrows);
}

/// A settled or cancelled escrow's address is never opened again: a
/// request on mints that is reserved that address is refused as a
/// collision.
pub proof fn lemma_retired_stays_closed(v: LedgerView, t: Take, r: Refund, b: Make, x: u64, y: u64)
    requires
        v.mints.contains_key(b.mint_a@),
        v.mints.contains_key(b.mint_b@),
    ensures
        take_spec(v, t, t.taker@) is Ok && escrow_of(v, b) == t.escrow@ && escrow_found(v, b) is Some ==> make_spec(
            take_spec(v, t, t.taker@)->Ok_0,
            b,
            b.maker@,
            x,
            y,
        ) == Err::<LedgerView, EscrowError>(EscrowError::AccountInUse),
        refund_spec(v, r, r.maker@) is Ok && escrow_of(v, b) == r.escrow@ && escrow_found(v, b) is Some ==> make_spec(
            refund_spec(v, r, r.maker@)->Ok_0,
            b,
            b.maker@,
            x,
            y,
        ) == Err::<LedgerView, EscrowError>(EscrowError::AccountInUse),
{
}

/// Opening an escrow and then settling it always succeeds where the taker's
/// accounts hold the trade's two assets for the taker and cover `amount_b`,
/// the maker's asset-B account holds asset B for the maker, no credited
/// balance would pass the 64-bit range, and the four token accounts are
/// distinct. Then the taker has gained `amount_a` of A and lost `amount_b`
/// of B, the maker has gained `amount_b` of B and lost `amount_a` of A,
/// the maker has both storage deposits back, and the record and the vault
/// are gone. The vault's signer is the vault, as `make` guarantees.
pub proof fn lemma_make_then_take_settles(v: LedgerView, a: Make, amount_a: u64, amount_b: u64, t: Take)
    requires
        make_spec(v, a, a.maker@, amount_a, amount_b) is Ok,
        vault_signer(make_spec(v, a, a.maker@, amount_a, amount_b)->Ok_0, escrow_of(v, a)) == Some(
            vault_found(v, escrow_of(v, a))->Some_0.0,
        ),
        t.escrow@ == escrow_of(v, a),
        t.maker@ == a.maker@,
        holds(v, t.maker_ata_b@, a.maker@, a.mint_b@),
        holds(v, t.taker_ata_b@, t.taker@, a.mint_b@),
        holds(v, t.taker_ata_a@, t.taker@, a.mint_a@),
        v.tokens[t.taker_ata_b@].amount >= amount_b,
        v.tokens[t.maker_ata_b@].amount + amount_b <= u64::MAX,
        v.tokens[t.taker_ata_a@].amount + amount_a <= u64::MAX,
        t.taker_ata_a@ != t.taker_ata_b@,
        t.taker_ata_a@ != t.maker_ata_b@,
        t.taker_ata_b@ != t.maker_ata_b@,
        t.taker_ata_a@ != a.maker_ata_a@,
        t.taker_ata_b@ != a.maker_ata_a@,
        t.maker_ata_b@ != a.maker_ata_a@,
    ensures
        ({
            let w = make_spec(v, a, a.maker@, amount_a, amount_b)->Ok_0;
            let vault = vault_found(v, escrow_of(v, a))->Some_0.0;
            &&& take_spec(w, t, t.taker@) is Ok
            &&& {
                let u = take_spec(w, t, t.taker@)->Ok_0;
                &&& !u.escrows.contains_key(escrow_of(v, a))
                &&& !u.tokens.contains_key(vault)
                &&& u.tokens[t.taker_ata_a@].amount == v.tokens[t.taker_ata_a@].amount + amount_a
                &&& u.tokens[t.taker_ata_b@].amount == v.tokens[t.taker_ata_b@].amount - amount_b
                &&& u.tokens[t.maker_ata_b@].amount == v.tokens[t.maker_ata_b@].amount + amount_b
                &&& u.tokens[a.maker_ata_a@].amount == v.tokens[a.maker_ata_a@].amount - amount_a
                &&& lamports_of(u.lamports, a.maker@) == lamports_of(v.lamports, a.maker@)
            }
        }),
{
}

} // verus!
