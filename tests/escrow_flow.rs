use anchor_lang::prelude::Pubkey;
use escrow::address::Address;
use escrow::escrow::{make, refund, take, vault_of, Make, Refund, Take};
use escrow::ledger::Ledger;
use escrow::record::{EscrowError, TokenAccount};

const ESCROW_DEPOSIT: u64 = 6960 * (128 + 121);
const VAULT_DEPOSIT: u64 = 6960 * (128 + 165);
const MAKER_LAMPORTS: u64 = 10_000_000;

fn addr(n: u8) -> Address {
    Address::new([n; 32])
}

fn program() -> Address {
    addr(200)
}
fn maker() -> Address {
    addr(1)
}
fn taker() -> Address {
    addr(2)
}
fn mint_a() -> Address {
    addr(10)
}
fn mint_b() -> Address {
    addr(11)
}
fn escrow_key() -> Address {
    escrow_key_for(1)
}
fn escrow_key_for(attempt: u64) -> Address {
    let (key, _) = Pubkey::find_program_address(
        &[b"escrow", &maker().bytes, &mint_a().bytes, &mint_b().bytes, &attempt.to_le_bytes()],
        &Pubkey::new_from_array(program().bytes),
    );
    Address::new(key.to_bytes())
}
fn maker_ata_a() -> Address {
    addr(30)
}
fn maker_ata_b() -> Address {
    addr(31)
}
fn taker_ata_a() -> Address {
    addr(32)
}
fn taker_ata_b() -> Address {
    addr(33)
}

fn holding(mint: Address, owner: Address, amount: u64) -> TokenAccount {
    TokenAccount { mint, owner, amount }
}

/// A ledger where the maker holds `maker_a` of A and the taker `taker_b` of B.
fn funded(maker_a: u64, taker_b: u64) -> Ledger {
    let mut l = Ledger::new(program());
    l.open_mint(&mint_a(), 6).unwrap();
    l.open_mint(&mint_b(), 9).unwrap();
    l.set_lamports(&maker(), MAKER_LAMPORTS);
    l.open_token_account(&maker_ata_a(), holding(mint_a(), maker(), maker_a)).unwrap();
    l.open_token_account(&maker_ata_b(), holding(mint_b(), maker(), 0)).unwrap();
    l.open_token_account(&taker_ata_a(), holding(mint_a(), taker(), 0)).unwrap();
    l.open_token_account(&taker_ata_b(), holding(mint_b(), taker(), taker_b)).unwrap();
    l
}

fn make_accounts() -> Make {
    Make {
        maker: maker(),
        mint_a: mint_a(),
        mint_b: mint_b(),
        attempt: 1,
        maker_ata_a: maker_ata_a(),
    }
}

fn take_accounts() -> Take {
    Take {
        taker: taker(),
        escrow: escrow_key(),
        maker: maker(),
        taker_ata_a: taker_ata_a(),
        taker_ata_b: taker_ata_b(),
        maker_ata_b: maker_ata_b(),
    }
}

fn refund_accounts() -> Refund {
    Refund { maker: maker(), escrow: escrow_key(), maker_ata_a: maker_ata_a() }
}

fn balance(l: &Ledger, k: &Address) -> u64 {
    l.token_account(k).unwrap().amount
}

#[test]
fn make_locks_amount_and_stores_terms() {
    let mut l = funded(100, 50);
    assert_eq!(make(&mut l, &make_accounts(), &maker(), 100, 50), Ok(escrow_key()));
    let vault = vault_of(&l, &escrow_key()).unwrap();
    let v = l.token_account(&vault).unwrap();
    assert_eq!(v.amount, 100);
    assert_eq!(v.mint, mint_a());
    assert_eq!(v.owner, vault);
    let rec = l.escrow(&escrow_key()).unwrap();
    assert_eq!(rec.maker, maker());
    assert_eq!(rec.mint_a, mint_a());
    assert_eq!(rec.mint_b, mint_b());
    assert_eq!(rec.amount_a, 100);
    assert_eq!(rec.amount_b, 50);
    assert_eq!(balance(&l, &maker_ata_a()), 0);
}

#[test]
fn make_derives_vault_from_escrow_address() {
    let mut l = funded(100, 50);
    assert_eq!(make(&mut l, &make_accounts(), &maker(), 100, 50), Ok(escrow_key()));
    let vault = vault_of(&l, &escrow_key()).unwrap();
    let (expected, bump) = Pubkey::find_program_address(
        &[b"vault", &escrow_key().bytes],
        &Pubkey::new_from_array(program().bytes),
    );
    assert_eq!(vault.bytes, expected.to_bytes());
    assert_ne!(vault, escrow_key());
    assert_eq!(l.escrow(&escrow_key()).unwrap().bump, bump);
}

#[test]
fn make_charges_storage_deposits() {
    let mut l = funded(100, 50);
    assert_eq!(make(&mut l, &make_accounts(), &maker(), 100, 50), Ok(escrow_key()));
    let vault = vault_of(&l, &escrow_key()).unwrap();
    assert_eq!(ESCROW_DEPOSIT, 1_733_040);
    assert_eq!(VAULT_DEPOSIT, 2_039_280);
    assert_eq!(l.lamports(&maker()), MAKER_LAMPORTS - ESCROW_DEPOSIT - VAULT_DEPOSIT);
    assert_eq!(l.lamports(&escrow_key()), ESCROW_DEPOSIT);
    assert_eq!(l.lamports(&vault), VAULT_DEPOSIT);
}

#[test]
fn take_settles_trade() {
    let mut l = funded(100, 50);
    assert_eq!(make(&mut l, &make_accounts(), &maker(), 100, 50), Ok(escrow_key()));
    let vault = vault_of(&l, &escrow_key()).unwrap();
    take(&mut l, &take_accounts(), &taker()).unwrap();
    assert!(l.escrow(&escrow_key()).is_none());
    assert!(l.token_account(&vault).is_none());
    assert_eq!(balance(&l, &taker_ata_a()), 100);
    assert_eq!(balance(&l, &taker_ata_b()), 0);
    assert_eq!(balance(&l, &maker_ata_a()), 0);
    assert_eq!(balance(&l, &maker_ata_b()), 50);
    assert_eq!(l.lamports(&maker()), MAKER_LAMPORTS);
    assert_eq!(l.lamports(&vault), 0);
    assert_eq!(l.lamports(&escrow_key()), 0);
}

#[test]
fn refund_restores_maker() {
    let mut l = funded(100, 50);
    assert_eq!(make(&mut l, &make_accounts(), &maker(), 100, 50), Ok(escrow_key()));
    let vault = vault_of(&l, &escrow_key()).unwrap();
    refund(&mut l, &refund_accounts(), &maker()).unwrap();
    assert!(l.escrow(&escrow_key()).is_none());
    assert!(l.token_account(&vault).is_none());
    assert_eq!(balance(&l, &maker_ata_a()), 100);
    assert_eq!(balance(&l, &maker_ata_b()), 0);
    assert_eq!(balance(&l, &taker_ata_a()), 0);
    assert_eq!(balance(&l, &taker_ata_b()), 50);
    assert_eq!(l.lamports(&maker()), MAKER_LAMPORTS);
    assert!(l.is_retired(&escrow_key()));
    assert!(l.in_use(&escrow_key()));
}

#[test]
fn second_take_finds_no_record() {
    let mut l = funded(100, 50);
    make(&mut l, &make_accounts(), &maker(), 100, 50).unwrap();
    take(&mut l, &take_accounts(), &taker()).unwrap();
    assert_eq!(take(&mut l, &take_accounts(), &taker()), Err(EscrowError::EscrowNotFound));
    assert_eq!(refund(&mut l, &refund_accounts(), &maker()), Err(EscrowError::EscrowNotFound));
    assert_eq!(balance(&l, &taker_ata_a()), 100);
    assert_eq!(balance(&l, &maker_ata_b()), 50);
}

#[test]
fn second_refund_finds_no_record() {
    let mut l = funded(100, 50);
    make(&mut l, &make_accounts(), &maker(), 100, 50).unwrap();
    refund(&mut l, &refund_accounts(), &maker()).unwrap();
    assert_eq!(refund(&mut l, &refund_accounts(), &maker()), Err(EscrowError::EscrowNotFound));
    assert_eq!(take(&mut l, &take_accounts(), &taker()), Err(EscrowError::EscrowNotFound));
    assert_eq!(balance(&l, &maker_ata_a()), 100);
    assert_eq!(balance(&l, &taker_ata_b()), 50);
}

#[test]
fn take_with_wrong_maker_is_refused() {
    let mut l = funded(100, 50);
    assert_eq!(make(&mut l, &make_accounts(), &maker(), 100, 50), Ok(escrow_key()));
    let vault = vault_of(&l, &escrow_key()).unwrap();
    let mut accounts = take_accounts();
    accounts.maker = addr(99);
    assert_eq!(take(&mut l, &accounts, &accounts.taker), Err(EscrowError::MakerMismatch));
    assert_eq!(balance(&l, &taker_ata_b()), 50);
    assert_eq!(balance(&l, &vault), 100);
    assert!(l.escrow(&escrow_key()).is_some());
}

#[test]
fn refund_by_other_than_maker_is_refused() {
    let mut l = funded(100, 50);
    make(&mut l, &make_accounts(), &maker(), 100, 50).unwrap();
    let mut accounts = refund_accounts();
    accounts.maker = taker();
    assert_eq!(refund(&mut l, &accounts, &accounts.maker), Err(EscrowError::MakerMismatch));
    assert!(l.escrow(&escrow_key()).is_some());
}

#[test]
fn make_twice_collides() {
    let mut l = funded(200, 50);
    assert_eq!(make(&mut l, &make_accounts(), &maker(), 100, 50), Ok(escrow_key()));
    let vault = vault_of(&l, &escrow_key()).unwrap();
    assert_eq!(make(&mut l, &make_accounts(), &maker(), 30, 7), Err(EscrowError::AccountInUse));
    let rec = l.escrow(&escrow_key()).unwrap();
    assert_eq!(rec.amount_a, 100);
    assert_eq!(rec.amount_b, 50);
    assert_eq!(balance(&l, &vault), 100);
    assert_eq!(balance(&l, &maker_ata_a()), 100);
}

#[test]
fn make_without_enough_asset_a_changes_nothing() {
    let mut l = funded(99, 50);
    assert_eq!(make(&mut l, &make_accounts(), &maker(), 100, 50), Err(EscrowError::InsufficientFunds));
    assert!(!l.in_use(&escrow_key()));
    assert_eq!(l.lamports(&maker()), MAKER_LAMPORTS);
    assert_eq!(balance(&l, &maker_ata_a()), 99);
}

#[test]
fn make_without_deposit_lamports_is_refused() {
    let mut l = funded(100, 50);
    l.set_lamports(&maker(), ESCROW_DEPOSIT + VAULT_DEPOSIT - 1);
    assert_eq!(make(&mut l, &make_accounts(), &maker(), 100, 50), Err(EscrowError::InsufficientLamports));
    assert!(l.escrow(&escrow_key()).is_none());
    assert_eq!(l.lamports(&maker()), ESCROW_DEPOSIT + VAULT_DEPOSIT - 1);
}

#[test]
fn make_with_wrong_asset_account_is_refused() {
    let mut accounts = make_accounts();
    accounts.maker_ata_a = maker_ata_b();
    let mut l = funded(100, 50);
    assert_eq!(make(&mut l, &accounts, &accounts.maker, 0, 50), Err(EscrowError::MintMismatch));
    let mut accounts = make_accounts();
    accounts.maker_ata_a = taker_ata_a();
    assert_eq!(make(&mut l, &accounts, &accounts.maker, 0, 50), Err(EscrowError::OwnerMismatch));
    let mut accounts = make_accounts();
    accounts.maker_ata_a = addr(77);
    assert_eq!(make(&mut l, &accounts, &accounts.maker, 0, 50), Err(EscrowError::AccountNotFound));
    assert!(l.escrow(&escrow_key()).is_none());
}

#[test]
fn make_allows_zero_amounts() {
    let mut l = funded(100, 50);
    assert_eq!(make(&mut l, &make_accounts(), &maker(), 0, 0), Ok(escrow_key()));
    let vault = vault_of(&l, &escrow_key()).unwrap();
    assert_eq!(balance(&l, &vault), 0);
    take(&mut l, &take_accounts(), &taker()).unwrap();
    assert_eq!(balance(&l, &taker_ata_b()), 50);
    assert_eq!(balance(&l, &maker_ata_a()), 100);
}

#[test]
fn take_without_enough_asset_b_changes_nothing() {
    let mut l = funded(100, 49);
    assert_eq!(make(&mut l, &make_accounts(), &maker(), 100, 50), Ok(escrow_key()));
    let vault = vault_of(&l, &escrow_key()).unwrap();
    assert_eq!(take(&mut l, &take_accounts(), &taker()), Err(EscrowError::InsufficientFunds));
    assert_eq!(balance(&l, &taker_ata_b()), 49);
    assert_eq!(balance(&l, &maker_ata_b()), 0);
    assert_eq!(balance(&l, &vault), 100);
    assert!(l.escrow(&escrow_key()).is_some());
}

#[test]
fn take_into_wrong_asset_account_is_refused() {
    let mut l = funded(100, 50);
    assert_eq!(make(&mut l, &make_accounts(), &maker(), 100, 50), Ok(escrow_key()));
    let vault = vault_of(&l, &escrow_key()).unwrap();
    let mut accounts = take_accounts();
    accounts.taker_ata_a = taker_ata_b();
    assert_eq!(take(&mut l, &accounts, &accounts.taker), Err(EscrowError::WrongAccount));
    assert_eq!(balance(&l, &taker_ata_b()), 50);
    assert_eq!(balance(&l, &maker_ata_b()), 0);
    assert_eq!(balance(&l, &vault), 100);
    assert!(l.escrow(&escrow_key()).is_some());
}

#[test]
fn take_rolls_back_when_a_later_step_overflows() {
    let mut l = funded(100, 50);
    assert_eq!(make(&mut l, &make_accounts(), &maker(), 100, 50), Ok(escrow_key()));
    let vault = vault_of(&l, &escrow_key()).unwrap();
    let full = addr(40);
    l.open_token_account(&full, holding(mint_a(), taker(), u64::MAX)).unwrap();
    let mut accounts = take_accounts();
    accounts.taker_ata_a = full;
    assert_eq!(take(&mut l, &accounts, &accounts.taker), Err(EscrowError::Overflow));
    assert_eq!(balance(&l, &vault), 100);
    assert_eq!(balance(&l, &taker_ata_b()), 50);
}

#[test]
fn attempts_reserve_distinct_escrows() {
    let mut l = funded(100, 50);
    assert_eq!(make(&mut l, &make_accounts(), &maker(), 60, 5), Ok(escrow_key()));
    let mut accounts = make_accounts();
    accounts.attempt = 2;
    assert_eq!(make(&mut l, &accounts, &maker(), 40, 6), Ok(escrow_key_for(2)));
    assert_ne!(escrow_key_for(2), escrow_key());
    assert_eq!(l.escrow(&escrow_key()).unwrap().amount_a, 60);
    assert_eq!(l.escrow(&escrow_key_for(2)).unwrap().amount_a, 40);
    assert_eq!(balance(&l, &maker_ata_a()), 0);
    accounts.attempt = 3;
    assert_eq!(make(&mut l, &accounts, &maker(), 0, 1), Err(EscrowError::InsufficientLamports));
    l.set_lamports(&maker(), MAKER_LAMPORTS);
    accounts.mint_b = mint_a();
    accounts.attempt = 1;
    let other = make(&mut l, &accounts, &maker(), 0, 1).unwrap();
    assert_ne!(other, escrow_key());
}

#[test]
fn transfer_checks_and_moves() {
    let mut l = funded(100, 50);
    assert_eq!(l.transfer(&maker_ata_a(), &taker_ata_a(), &maker(), 40), Ok(()));
    assert_eq!(balance(&l, &maker_ata_a()), 60);
    assert_eq!(balance(&l, &taker_ata_a()), 40);
    assert_eq!(l.transfer(&maker_ata_a(), &maker_ata_a(), &maker(), 60), Ok(()));
    assert_eq!(balance(&l, &maker_ata_a()), 60);
    assert_eq!(l.transfer(&maker_ata_a(), &taker_ata_a(), &taker(), 1), Err(EscrowError::OwnerMismatch));
    assert_eq!(l.transfer(&maker_ata_a(), &taker_ata_b(), &maker(), 1), Err(EscrowError::MintMismatch));
    assert_eq!(l.transfer(&maker_ata_a(), &taker_ata_a(), &maker(), 61), Err(EscrowError::InsufficientFunds));
}

#[test]
fn close_token_account_needs_empty_balance() {
    let mut l = funded(100, 50);
    assert_eq!(l.close_token_account(&maker_ata_a(), &maker(), &maker()), Err(EscrowError::NonZeroBalance));
    assert_eq!(l.close_token_account(&maker_ata_b(), &maker_ata_b(), &maker()), Err(EscrowError::InvalidAccount));
    assert_eq!(l.close_token_account(&maker_ata_b(), &maker(), &taker()), Err(EscrowError::OwnerMismatch));
    assert_eq!(l.close_token_account(&maker_ata_b(), &maker(), &maker()), Ok(()));
    assert!(l.token_account(&maker_ata_b()).is_none());
    assert_eq!(l.close_escrow(&escrow_key(), &maker()), Err(EscrowError::EscrowNotFound));
}

#[test]
fn open_token_account_refuses_used_address() {
    let mut l = funded(100, 50);
    assert_eq!(l.open_token_account(&maker(), holding(mint_a(), maker(), 0)), Err(EscrowError::AccountInUse));
    assert_eq!(l.open_token_account(&maker_ata_a(), holding(mint_a(), maker(), 0)), Err(EscrowError::AccountInUse));
    assert_eq!(balance(&l, &maker_ata_a()), 100);
}

#[test]
fn addresses_compare_by_bytes() {
    let mut b = [3u8; 32];
    assert!(Address::new(b).same(&addr(3)));
    b[31] = 4;
    assert!(!Address::new(b).same(&addr(3)));
    assert_eq!(l_program(), program());
}

fn l_program() -> Address {
    Ledger::new(program()).program_id()
}

#[test]
fn take_paying_the_taker_is_refused() {
    let mut l = funded(100, 50);
    let vault = {
        make(&mut l, &make_accounts(), &maker(), 100, 50).unwrap();
        vault_of(&l, &escrow_key()).unwrap()
    };
    let own_b = addr(41);
    l.open_token_account(&own_b, holding(mint_b(), taker(), 0)).unwrap();
    let mut accounts = take_accounts();
    accounts.maker_ata_b = own_b;
    assert_eq!(take(&mut l, &accounts, &taker()), Err(EscrowError::WrongAccount));
    let other_mint = addr(12);
    l.open_mint(&other_mint, 0).unwrap();
    let wrong_b = addr(42);
    l.open_token_account(&wrong_b, holding(other_mint, maker(), 0)).unwrap();
    let mut accounts = take_accounts();
    accounts.maker_ata_b = wrong_b;
    assert_eq!(take(&mut l, &accounts, &taker()), Err(EscrowError::WrongAccount));
    assert_eq!(balance(&l, &vault), 100);
    assert_eq!(balance(&l, &taker_ata_b()), 50);
}

#[test]
fn retired_escrow_address_is_never_reopened() {
    let mut l = funded(200, 50);
    make(&mut l, &make_accounts(), &maker(), 100, 50).unwrap();
    take(&mut l, &take_accounts(), &taker()).unwrap();
    assert!(l.is_retired(&escrow_key()));
    assert_eq!(make(&mut l, &make_accounts(), &maker(), 100, 50), Err(EscrowError::AccountInUse));
    assert_eq!(balance(&l, &maker_ata_a()), 100);
    let mut l = funded(200, 50);
    make(&mut l, &make_accounts(), &maker(), 100, 50).unwrap();
    refund(&mut l, &refund_accounts(), &maker()).unwrap();
    assert_eq!(make(&mut l, &make_accounts(), &maker(), 100, 50), Err(EscrowError::AccountInUse));
    assert!(l.escrow(&escrow_key()).is_none());
}

#[test]
fn unsigned_requests_are_refused() {
    let mut l = funded(100, 50);
    assert_eq!(make(&mut l, &make_accounts(), &taker(), 100, 50), Err(EscrowError::MissingSignature));
    assert!(!l.in_use(&escrow_key()));
    make(&mut l, &make_accounts(), &maker(), 100, 50).unwrap();
    assert_eq!(take(&mut l, &take_accounts(), &maker()), Err(EscrowError::MissingSignature));
    assert_eq!(refund(&mut l, &refund_accounts(), &taker()), Err(EscrowError::MissingSignature));
    assert!(l.escrow(&escrow_key()).is_some());
    assert_eq!(balance(&l, &taker_ata_b()), 50);
}

#[test]
fn make_needs_mint_accounts() {
    let mut l = funded(100, 50);
    let mut accounts = make_accounts();
    accounts.mint_b = addr(13);
    assert_eq!(make(&mut l, &accounts, &maker(), 100, 50), Err(EscrowError::NotAMint));
    accounts.mint_b = mint_b();
    accounts.mint_a = maker_ata_a();
    assert_eq!(make(&mut l, &accounts, &maker(), 100, 50), Err(EscrowError::NotAMint));
    assert!(!l.in_use(&escrow_key()));
    assert!(l.is_mint(&mint_a()));
}

#[test]
fn refund_only_to_the_makers_asset_a_account() {
    let mut l = funded(100, 50);
    make(&mut l, &make_accounts(), &maker(), 100, 50).unwrap();
    let mut accounts = refund_accounts();
    accounts.maker_ata_a = taker_ata_a();
    assert_eq!(refund(&mut l, &accounts, &maker()), Err(EscrowError::WrongAccount));
    accounts.maker_ata_a = maker_ata_b();
    assert_eq!(refund(&mut l, &accounts, &maker()), Err(EscrowError::WrongAccount));
    assert_eq!(balance(&l, &taker_ata_a()), 0);
    assert!(l.escrow(&escrow_key()).is_some());
}
