use crate::address::Address;
use crate::record::{Escrow, EscrowError, EscrowView, TokenAccount, TokenAccountView};
use crate::table::Table;
use vstd::prelude::*;

verus! {

/// What the ledger holds: token accounts, lamport balances and escrow
/// records, each keyed by address.
pub ghost struct LedgerView {
    pub program: Seq<u8>,
    pub tokens: Map<Seq<u8>, TokenAccountView>,
    pub lamports: Map<Seq<u8>, u64>,
    pub escrows: Map<Seq<u8>, EscrowView>,
    /// Mint accounts, each with its decimals.
    pub mints: Map<Seq<u8>, u8>,
    /// Addresses of escrow records that were retired; none is used again.
    pub retired: Set<Seq<u8>>,
}

/// The lamports at `k`; an address never funded holds none.
pub open spec fn lamports_of(m: Map<Seq<u8>, u64>, k: Seq<u8>) -> u64 {
    if m.contains_key(k) {
        m[k]
    } else {
        0
    }
}

/// An address holds an account of some kind.
pub open spec fn in_use(v: LedgerView, k: Seq<u8>) -> bool {
    v.tokens.contains_key(k) || v.escrows.contains_key(k) || v.lamports.contains_key(k)
        || v.mints.contains_key(k) || v.retired.contains(k)
}

/// `r` reports `s`: the state it leads to on success, its error otherwise,
/// and on error the state is left as it was.
pub open spec fn outcome<T>(
    r: Result<T, EscrowError>,
    s: Result<LedgerView, EscrowError>,
    before: LedgerView,
    after: LedgerView,
) -> bool {
    match s {
        Ok(w) => r is Ok && after == w,
        Err(e) => r == Err::<T, EscrowError>(e) && after == before,
    }
}

/// `payer` funds a new account at `key` with `deposit` lamports.
pub open spec fn create_account_spec(v: LedgerView, payer: Seq<u8>, key: Seq<u8>, deposit: u64) -> Result<
    LedgerView,
    EscrowError,
> {
    if in_use(v, key) {
        Err(EscrowError::AccountInUse)
    } else if lamports_of(v.lamports, payer) < deposit {
        Err(EscrowError::InsufficientLamports)
    } else {
        Ok(
            LedgerView {
                lamports: v.lamports.insert(
                    payer,
                    (lamports_of(v.lamports, payer) - deposit) as u64,
                ).insert(key, deposit),
                ..v
            },
        )
    }
}

/// `authority` moves `amount` from the token account `from` to `to`.
pub open spec fn transfer_spec(
    v: LedgerView,
    from: Seq<u8>,
    to: Seq<u8>,
    authority: Seq<u8>,
    amount: u64,
) -> Result<LedgerView, EscrowError> {
    if !v.tokens.contains_key(from) || !v.tokens.contains_key(to) {
        Err(EscrowError::AccountNotFound)
    } else if v.tokens[from].amount < amount {
        Err(EscrowError::InsufficientFunds)
    } else if v.tokens[from].mint != v.tokens[to].mint {
        Err(EscrowError::MintMismatch)
    } else if v.tokens[from].owner != authority {
        Err(EscrowError::OwnerMismatch)
    } else if from == to {
        Ok(v)
    } else if v.tokens[to].amount + amount > u64::MAX {
        Err(EscrowError::Overflow)
    } else {
        Ok(
            LedgerView {
                tokens: v.tokens.insert(
                    from,
                    TokenAccountView { amount: (v.tokens[from].amount - amount) as u64, ..v.tokens[from] },
                ).insert(
                    to,
                    TokenAccountView { amount: (v.tokens[to].amount + amount) as u64, ..v.tokens[to] },
                ),
                ..v
            },
        )
    }
}

/// `authority` closes the empty token account `account`; its lamports go
/// to `dest`.
pub open spec fn close_token_spec(v: LedgerView, account: Seq<u8>, dest: Seq<u8>, authority: Seq<u8>) -> Result<
    LedgerView,
    EscrowError,
> {
    if !v.tokens.contains_key(account) {
        Err(EscrowError::AccountNotFound)
    } else if account == dest {
        Err(EscrowError::InvalidAccount)
    } else if v.tokens[account].amount != 0 {
        Err(EscrowError::NonZeroBalance)
    } else if v.tokens[account].owner != authority {
        Err(EscrowError::OwnerMismatch)
    } else if lamports_of(v.lamports, dest) + lamports_of(v.lamports, account) > u64::MAX {
        Err(EscrowError::Overflow)
    } else {
        Ok(
            LedgerView {
                tokens: v.tokens.remove(account),
                lamports: v.lamports.remove(account).insert(
                    dest,
                    (lamports_of(v.lamports, dest) + lamports_of(v.lamports, account)) as u64,
                ),
                ..v
            },
        )
    }
}

/// The escrow record at `escrow` is retired; its lamports go to `dest`.
pub open spec fn close_escrow_spec(v: LedgerView, escrow: Seq<u8>, dest: Seq<u8>) -> Result<
    LedgerView,
    EscrowError,
> {
    if !v.escrows.contains_key(escrow) {
        Err(EscrowError::EscrowNotFound)
    } else if escrow == dest {
        Err(EscrowError::InvalidAccount)
    } else if lamports_of(v.lamports, dest) + lamports_of(v.lamports, escrow) > u64::MAX {
        Err(EscrowError::Overflow)
    } else {
        Ok(
            LedgerView {
                escrows: v.escrows.remove(escrow),
                retired: v.retired.insert(escrow),
                lamports: v.lamports.remove(escrow).insert(
                    dest,
                    (lamports_of(v.lamports, dest) + lamports_of(v.lamports, escrow)) as u64,
                ),
                ..v
            },
        )
    }
}

/// An in-memory ledger for one escrow program. Each operation either
/// applies whole or is refused with the ledger unchanged.
pub struct Ledger {
    program: Address,
    tokens: Table<TokenAccount>,
    lamports: Table<u64>,
    escrows: Table<Escrow>,
    mints: Table<u8>,
    retired: Table<u8>,
}

impl View for Ledger {
    type V = LedgerView;

    closed spec fn view(&self) -> LedgerView {
        LedgerView {
            program: self.program@,
            tokens: self.tokens@,
            lamports: self.lamports@,
            escrows: self.escrows@,
            mints: self.mints@,
            retired: self.retired@.dom(),
        }
    }
}

impl Ledger {
    pub closed spec fn wf(&self) -> bool {
        self.tokens.wf() && self.lamports.wf() && self.escrows.wf() && self.mints.wf()
            && self.retired.wf()
    }

    /// An empty ledger for the program at `program`.
    pub fn new(program: Address) -> (r: Ledger)
        ensures
            r.wf(),
            r@.program == program@,
            r@.tokens == Map::<Seq<u8>, TokenAccountView>::empty(),
            r@.lamports == Map::<Seq<u8>, u64>::empty(),
            r@.escrows == Map::<Seq<u8>, EscrowView>::empty(),
            r@.mints == Map::<Seq<u8>, u8>::empty(),
            r@.retired == Set::<Seq<u8>>::empty(),
    {
        let r = Ledger {
            program,
            tokens: Table::new(),
            lamports: Table::new(),
            escrows: Table::new(),
            mints: Table::new(),
            retired: Table::new(),
        };
        assert(r@.retired =~= Set::<Seq<u8>>::empty());
        r
    }

    pub fn program_id(&self) -> (r: Address)
        ensures
            r@ == self@.program,
    {
        self.program
    }

    /// The token account at `key`, if any.
    pub fn token_account(&self, key: &Address) -> (r: Option<TokenAccount>)
        requires
            self.wf(),
        ensures
            match r {
                Some(t) => self@.tokens.contains_key(key@) && self@.tokens[key@] == t@,
                None => !self@.tokens.contains_key(key@),
            },
    {
        self.tokens.get(key)
    }

    /// The escrow record at `key`, if one is open.
    pub fn escrow(&self, key: &Address) -> (r: Option<Escrow>)
        requires
            self.wf(),
        ensures
            match r {
                Some(e) => self@.escrows.contains_key(key@) && self@.escrows[key@] == e@,
                None => !self@.escrows.contains_key(key@),
            },
    {
        self.escrows.get(key)
    }

    /// The lamports held at `key`.
    pub fn lamports(&self, key: &Address) -> (r: u64)
        requires
            self.wf(),
        ensures
            r == lamports_of(self@.lamports, key@),
    {
        match self.lamports.get(key) {
            Some(l) => l,
            None => 0,
        }
    }

    /// Sets the lamports held at `key`.
    pub fn set_lamports(&mut self, key: &Address, amount: u64)
        requires
            old(self).wf(),
        ensures
            final(self).wf(),
            final(self)@ == (LedgerView { lamports: old(self)@.lamports.insert(key@, amount), ..old(self)@ }),
    {
        self.lamports.set(key, amount);
    }

    /// Opens a token account at an unused address.
    pub fn open_token_account(&mut self, key: &Address, account: TokenAccount) -> (r: Result<(), EscrowError>)
        requires
            old(self).wf(),
        ensures
            final(self).wf(),
            outcome(
                r,
                if in_use(old(self)@, key@) {
                    Err(EscrowError::AccountInUse)
                } else {
                    Ok(LedgerView { tokens: old(self)@.tokens.insert(key@, account@), ..old(self)@ })
                },
                old(self)@,
                final(self)@,
            ),
    {
        if self.in_use(key) {
            return Err(EscrowError::AccountInUse);
        }
        self.tokens.set(key, account);
        Ok(())
    }

    /// Opens a mint account at an unused address.
    pub fn open_mint(&mut self, key: &Address, decimals: u8) -> (r: Result<(), EscrowError>)
        requires
            old(self).wf(),
        ensures
            final(self).wf(),
            outcome(
                r,
                if in_use(old(self)@, key@) {
                    Err(EscrowError::AccountInUse)
                } else {
                    Ok(LedgerView { mints: old(self)@.mints.insert(key@, decimals), ..old(self)@ })
                },
                old(self)@,
                final(self)@,
            ),
    {
        if self.in_use(key) {
            return Err(EscrowError::AccountInUse);
        }
        self.mints.set(key, decimals);
        Ok(())
    }

    /// Whether `key` holds a mint account.
    pub fn is_mint(&self, key: &Address) -> (r: bool)
        requires
            self.wf(),
        ensures
            r == self@.mints.contains_key(key@),
    {
        self.mints.get(key).is_some()
    }

    /// Whether the token account `key` holds `mint` for `owner`.
    pub fn holds(&self, key: &Address, owner: &Address, mint: &Address) -> (r: bool)
        requires
            self.wf(),
        ensures
            r == (self@.tokens.contains_key(key@) && self@.tokens[key@].owner == owner@
                && self@.tokens[key@].mint == mint@),
    {
        match self.tokens.get(key) {
            Some(t) => t.owner.same(owner) && t.mint.same(mint),
            None => false,
        }
    }

    /// Whether the escrow record at `key` was retired.
    pub fn is_retired(&self, key: &Address) -> (r: bool)
        requires
            self.wf(),
        ensures
            r == self@.retired.contains(key@),
    {
        self.retired.get(key).is_some()
    }

    pub fn in_use(&self, key: &Address) -> (r: bool)
        requires
            self.wf(),
        ensures
            r == in_use(self@, key@),
    {
        self.tokens.get(key).is_some() || self.escrows.get(key).is_some() || self.lamports.get(
            key,
        ).is_some() || self.mints.get(key).is_some() || self.retired.get(key).is_some()
    }

    /// A copy with the same contents.
    pub fn duplicate(&self) -> (r: Ledger)
        requires
            self.wf(),
        ensures
            r.wf(),
            r@ == self@,
    {
        Ledger {
            program: self.program,
            tokens: self.tokens.duplicate(),
            lamports: self.lamports.duplicate(),
            escrows: self.escrows.duplicate(),
            mints: self.mints.duplicate(),
            retired: self.retired.duplicate(),
        }
    }

    /// Funds a new account at `key` with `deposit` lamports taken from
    /// `payer`.
    pub fn create_account(&mut self, payer: &Address, key: &Address, deposit: u64) -> (r: Result<(), EscrowError>)
        requires
            old(self).wf(),
        ensures
            final(self).wf(),
            outcome(r, create_account_spec(old(self)@, payer@, key@, deposit), old(self)@, final(self)@),
    {
        if self.in_use(key) {
            return Err(EscrowError::AccountInUse);
        }
        let have = self.lamports(payer);
        if have < deposit {
            return Err(EscrowError::InsufficientLamports);
        }
        self.lamports.set(payer, have - deposit);
        self.lamports.set(key, deposit);
        Ok(())
    }

    /// Moves `amount` between two token accounts of one mint, on the
    /// authority of the source's owner.
    pub fn transfer(&mut self, from: &Address, to: &Address, authority: &Address, amount: u64) -> (r: Result<(), EscrowError>)
        requires
            old(self).wf(),
        ensures
            final(self).wf(),
            outcome(r, transfer_spec(old(self)@, from@, to@, authority@, amount), old(self)@, final(self)@),
    {
        let src = match self.tokens.get(from) {
            Some(t) => t,
            None => return Err(EscrowError::AccountNotFound),
        };
        let dst = match self.tokens.get(to) {
            Some(t) => t,
            None => return Err(EscrowError::AccountNotFound),
        };
        if src.amount < amount {
            return Err(EscrowError::InsufficientFunds);
        }
        if !src.mint.same(&dst.mint) {
            return Err(EscrowError::MintMismatch);
        }
        if !src.owner.same(authority) {
            return Err(EscrowError::OwnerMismatch);
        }
        if from.same(to) {
            return Ok(());
        }
        if dst.amount > u64::MAX - amount {
            return Err(EscrowError::Overflow);
        }
        self.tokens.set(from, TokenAccount { amount: src.amount - amount, ..src });
        self.tokens.set(to, TokenAccount { amount: dst.amount + amount, ..dst });
        Ok(())
    }

    /// Closes an empty token account on its owner's authority; its lamports
    /// go to `dest`.
    pub fn close_token_account(&mut self, account: &Address, dest: &Address, authority: &Address) -> (r: Result<(), EscrowError>)
        requires
            old(self).wf(),
        ensures
            final(self).wf(),
            outcome(r, close_token_spec(old(self)@, account@, dest@, authority@), old(self)@, final(self)@),
    {
        let acct = match self.tokens.get(account) {
            Some(t) => t,
            None => return Err(EscrowError::AccountNotFound),
        };
        if account.same(dest) {
            return Err(EscrowError::InvalidAccount);
        }
        if acct.amount != 0 {
            return Err(EscrowError::NonZeroBalance);
        }
        if !acct.owner.same(authority) {
            return Err(EscrowError::OwnerMismatch);
        }
        let held = self.lamports(account);
        let dest_held = self.lamports(dest);
        if dest_held > u64::MAX - held {
            return Err(EscrowError::Overflow);
        }
        self.tokens.remove(account);
        self.lamports.remove(account);
        self.lamports.set(dest, dest_held + held);
        Ok(())
    }

    /// Stores a token account at `key`, replacing any earlier one.
    pub(crate) fn put_token_account(&mut self, key: &Address, account: TokenAccount)
        requires
            old(self).wf(),
        ensures
            final(self).wf(),
            final(self)@ == (LedgerView { tokens: old(self)@.tokens.insert(key@, account@), ..old(self)@ }),
    {
        self.tokens.set(key, account);
    }

    /// Stores the record of a new escrow at `key`.
    pub(crate) fn put_escrow(&mut self, key: &Address, record: Escrow)
        requires
            old(self).wf(),
        ensures
            final(self).wf(),
            final(self)@ == (LedgerView { escrows: old(self)@.escrows.insert(key@, record@), ..old(self)@ }),
    {
        self.escrows.set(key, record);
    }

    /// Retires the escrow record at `escrow`; its lamports go to `dest`.
    pub fn close_escrow(&mut self, escrow: &Address, dest: &Address) -> (r: Result<(), EscrowError>)
        requires
            old(self).wf(),
        ensures
            final(self).wf(),
            outcome(r, close_escrow_spec(old(self)@, escrow@, dest@), old(self)@, final(self)@),
    {
        if self.escrows.get(escrow).is_none() {
            return Err(EscrowError::EscrowNotFound);
        }
        if escrow.same(dest) {
            return Err(EscrowError::InvalidAccount);
        }
        let held = self.lamports(escrow);
        let dest_held = self.lamports(dest);
        if dest_held > u64::MAX - held {
            return Err(EscrowError::Overflow);
        }
        let ghost before = self.retired@;
        self.escrows.remove(escrow);
        self.retired.set(escrow, 0);
        assert(self.retired@.dom() =~= before.dom().insert(escrow@));
        self.lamports.remove(escrow);
        self.lamports.set(dest, dest_held + held);
        Ok(())
    }
}

} // verus!
