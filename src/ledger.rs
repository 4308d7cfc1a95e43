use crate::accounts::{
    accounts_map, lemma_map_at, lemma_map_push, lemma_map_remove, lemma_map_update,
    unique_addresses, Account, AccountData,
};
use crate::error::EscrowError;
use crate::key::Key;
use vstd::prelude::*;

verus! {

/// The programs an escrow runs with, and the deposits that new accounts hold.
#[derive(Clone, Copy, Debug, PartialEq, Eq)]
pub struct Config {
    /// The escrow program, under which offer addresses are derived.
    pub program_id: Key,
    /// The token program that keeps token accounts.
    pub token_program: Key,
    /// The associated token account program, under which holding addresses are derived.
    pub ata_program: Key,
    /// Lamports that an offer record holds while it exists.
    pub record_rent: u64,
    /// Lamports that a token account holds while it exists.
    pub token_rent: u64,
}

/// The accounts that an escrow reads and writes, keyed by address.
pub struct Ledger {
    config: Config,
    accounts: Vec<Account>,
}

pub type AccountMap = Map<Seq<u8>, Account>;

/// The account with `lamports` in place of its own.
pub open spec fn with_lamports(acc: Account, lamports: int) -> Account {
    Account { address: acc.address, lamports: lamports as u64, data: acc.data }
}

/// The token account with `amount` in place of its own.
pub open spec fn with_amount(acc: Account, amount: int) -> Account {
    match acc.data {
        AccountData::Token { mint, owner, .. } => Account {
            address: acc.address,
            lamports: acc.lamports,
            data: AccountData::Token { mint, owner, amount: amount as u64 },
        },
        _ => acc,
    }
}

/// The token balance held at `a`, zero where no token account stands there.
pub open spec fn token_balance(m: AccountMap, a: Seq<u8>) -> int {
    if m.contains_key(a) {
        match m[a].data {
            AccountData::Token { amount, .. } => amount as int,
            _ => 0,
        }
    } else {
        0
    }
}

/// Creating an account at `address` holding `data`, its deposit paid by `payer`.
pub open spec fn create_spec(m: AccountMap, payer: Key, address: Key, rent: u64, data: AccountData) -> Result<AccountMap, EscrowError> {
    if !m.contains_key(payer@) {
        Err(EscrowError::AccountNotFound)
    } else if !(m[payer@].data is Wallet) {
        Err(EscrowError::ConstraintMismatch)
    } else if m[payer@].lamports < rent {
        Err(EscrowError::InsufficientLamports)
    } else if m.contains_key(address@) {
        Err(EscrowError::AddressInUse)
    } else {
        Ok(
            m.insert(payer@, with_lamports(m[payer@], m[payer@].lamports - rent)).insert(
                address@,
                Account { address, lamports: rent, data },
            ),
        )
    }
}

/// An asset-type-checked transfer of `amount` of `mint` from `from` to `to`,
/// authorized by `authority`.
pub open spec fn transfer_spec(m: AccountMap, from: Key, to: Key, mint: Key, authority: Key, amount: u64) -> Result<AccountMap, EscrowError> {
    if !m.contains_key(from@) || !m.contains_key(to@) || !m.contains_key(mint@) {
        Err(EscrowError::AccountNotFound)
    } else {
        match (m[from@].data, m[to@].data, m[mint@].data) {
            (
                AccountData::Token { mint: fm, owner: fo, amount: fa },
                AccountData::Token { mint: tm, amount: ta, .. },
                AccountData::Mint { .. },
            ) => {
                if fm@ != mint@ || tm@ != mint@ {
                    Err(EscrowError::ConstraintMismatch)
                } else if fo@ != authority@ {
                    Err(EscrowError::MissingSignature)
                } else if fa < amount {
                    Err(EscrowError::InsufficientFunds)
                } else if from@ == to@ {
                    Ok(m)
                } else if ta + amount > u64::MAX {
                    Err(EscrowError::Overflow)
                } else {
                    Ok(
                        m.insert(from@, with_amount(m[from@], fa - amount)).insert(
                            to@,
                            with_amount(m[to@], ta + amount),
                        ),
                    )
                }
            },
            _ => Err(EscrowError::ConstraintMismatch),
        }
    }
}

/// Moving the lamports of `account` to `destination` and removing `account`.
pub open spec fn reclaim_spec(m: AccountMap, account: Key, destination: Key) -> Result<AccountMap, EscrowError> {
    if account@ == destination@ {
        Err(EscrowError::ConstraintMismatch)
    } else if m[destination@].lamports + m[account@].lamports > u64::MAX {
        Err(EscrowError::Overflow)
    } else {
        Ok(
            m.remove(account@).insert(
                destination@,
                with_lamports(m[destination@], m[destination@].lamports + m[account@].lamports),
            ),
        )
    }
}

/// Closing the empty token account `account`, authorized by `authority`, its
/// deposit going to `destination`.
pub open spec fn close_token_spec(m: AccountMap, account: Key, destination: Key, authority: Key) -> Result<AccountMap, EscrowError> {
    if !m.contains_key(account@) || !m.contains_key(destination@) {
        Err(EscrowError::AccountNotFound)
    } else {
        match m[account@].data {
            AccountData::Token { owner, amount, .. } => {
                if owner@ != authority@ {
                    Err(EscrowError::MissingSignature)
                } else if amount != 0 {
                    Err(EscrowError::NonZeroBalance)
                } else {
                    reclaim_spec(m, account, destination)
                }
            },
            _ => Err(EscrowError::ConstraintMismatch),
        }
    }
}

/// Closing the offer record at `record`, its deposit going to `destination`.
pub open spec fn close_record_spec(m: AccountMap, record: Key, destination: Key) -> Result<AccountMap, EscrowError> {
    if !m.contains_key(record@) || !m.contains_key(destination@) {
        Err(EscrowError::AccountNotFound)
    } else if !(m[record@].data is Record) {
        Err(EscrowError::ConstraintMismatch)
    } else {
        reclaim_spec(m, record, destination)
    }
}

/// A token account of `owner` for `mint` at `address`: the one there, or a new
/// empty one paid by `payer`.
pub open spec fn ensure_token_spec(m: AccountMap, rent: u64, payer: Key, address: Key, owner: Key, mint: Key) -> Result<AccountMap, EscrowError> {
    if m.contains_key(address@) {
        match m[address@].data {
            AccountData::Token { mint: tm, owner: to, .. } => {
                if tm@ == mint@ && to@ == owner@ {
                    Ok(m)
                } else {
                    Err(EscrowError::ConstraintMismatch)
                }
            },
            _ => Err(EscrowError::ConstraintMismatch),
        }
    } else {
        create_spec(m, payer, address, rent, AccountData::Token { mint, owner, amount: 0 })
    }
}

/// `r` and the state `after` are what `expected` says of a step from `before`:
/// on success its new state, on failure its error and no change.
pub open spec fn step_follows(r: Result<(), EscrowError>, before: AccountMap, after: AccountMap, expected: Result<AccountMap, EscrowError>) -> bool {
    match expected {
        Ok(m) => r is Ok && after == m,
        Err(e) => r == Err::<(), EscrowError>(e) && after == before,
    }
}

impl View for Ledger {
    type V = AccountMap;

    closed spec fn view(&self) -> AccountMap {
        accounts_map(self.accounts@)
    }
}

impl Ledger {
    /// No two accounts share an address.
    pub closed spec fn wf(&self) -> bool {
        unique_addresses(self.accounts@)
    }

    /// The programs and deposits that this ledger runs with.
    pub closed spec fn cfg(&self) -> Config {
        self.config
    }

    pub fn config(&self) -> (r: Config)
        ensures
            r == self.cfg(),
    {
        self.config
    }

    /// An empty ledger.
    pub fn new(config: Config) -> (r: Ledger)
        ensures
            r.wf(),
            r.cfg() == config,
            r@ == Map::<Seq<u8>, Account>::empty(),
    {
        let r = Ledger { config, accounts: Vec::new() };
        assert(r@ =~= Map::<Seq<u8>, Account>::empty());
        r
    }

    /// Where the account at `address` stands, if there is one.
    fn find(&self, address: &Key) -> (r: Option<usize>)
        requires
            self.wf(),
        ensures
            match r {
                Some(i) => i < self.accounts@.len() && self.accounts@[i as int].address@ == address@ && self@.contains_key(address@)
                    && self@[address@] == self.accounts@[i as int],
                None => !self@.contains_key(address@),
            },
    {
        let mut i: usize = 0;
        while i < self.accounts.len()
            invariant
                self.wf(),
                i <= self.accounts@.len(),
                forall|j: int| 0 <= j < i ==> #[trigger] self.accounts@[j].address@ != address@,
            decreases self.accounts@.len() - i,
        {
            if self.accounts[i].address == *address {
                proof {
                    lemma_map_at(self.accounts@, i as int);
                }
                return Some(i);
            }
            i = i + 1;
        }
        None
    }

    /// The account at `address`, if there is one.
    pub fn account(&self, address: &Key) -> (r: Option<Account>)
        requires
            self.wf(),
        ensures
            match r {
                Some(acc) => self@.contains_key(address@) && self@[address@] == acc,
                None => !self@.contains_key(address@),
            },
    {
        match self.find(address) {
            Some(i) => Some(self.accounts[i]),
            None => None,
        }
    }

    fn set_account(&mut self, i: usize, acc: Account)
        requires
            old(self).wf(),
            i < old(self).accounts@.len(),
            acc.address@ == old(self).accounts@[i as int].address@,
        ensures
            final(self).wf(),
            final(self).cfg() == old(self).cfg(),
            final(self)@ == old(self)@.insert(acc.address@, acc),
            final(self).accounts@ == old(self).accounts@.update(i as int, acc),
    {
        proof {
            lemma_map_update(self.accounts@, i as int, acc);
        }
        self.accounts.set(i, acc);
    }

    fn push_account(&mut self, acc: Account)
        requires
            old(self).wf(),
            !old(self)@.contains_key(acc.address@),
        ensures
            final(self).wf(),
            final(self).cfg() == old(self).cfg(),
            final(self)@ == old(self)@.insert(acc.address@, acc),
    {
        proof {
            lemma_map_push(self.accounts@, acc);
        }
        self.accounts.push(acc);
    }

    fn remove_account(&mut self, i: usize)
        requires
            old(self).wf(),
            i < old(self).accounts@.len(),
        ensures
            final(self).wf(),
            final(self).cfg() == old(self).cfg(),
            final(self)@ == old(self)@.remove(old(self).accounts@[i as int].address@),
            final(self).accounts@ == old(self).accounts@.remove(i as int),
    {
        proof {
            lemma_map_remove(self.accounts@, i as int);
        }
        self.accounts.remove(i);
    }

    /// A second ledger with the same programs and accounts.
    pub fn duplicate(&self) -> (r: Ledger)
        requires
            self.wf(),
        ensures
            r.wf(),
            r.cfg() == self.cfg(),
            r@ == self@,
    {
        let mut accounts: Vec<Account> = Vec::new();
        let mut i: usize = 0;
        while i < self.accounts.len()
            invariant
                i <= self.accounts@.len(),
                accounts@ == self.accounts@.subrange(0, i as int),
            decreases self.accounts@.len() - i,
        {
            accounts.push(self.accounts[i]);
            i = i + 1;
            assert(accounts@ =~= self.accounts@.subrange(0, i as int));
        }
        assert(accounts@ =~= self.accounts@);
        Ledger { config: self.config, accounts }
    }

    /// Adds `acc` to the ledger as it stands, where its address is free.
    pub fn add_account(&mut self, acc: Account) -> (r: Result<(), EscrowError>)
        requires
            old(self).wf(),
        ensures
            final(self).wf(),
            final(self).cfg() == old(self).cfg(),
            step_follows(
                r,
                old(self)@,
                final(self)@,
                if old(self)@.contains_key(acc.address@) {
                    Err(EscrowError::AddressInUse)
                } else {
                    Ok(old(self)@.insert(acc.address@, acc))
                },
            ),
    {
        if self.find(&acc.address).is_some() {
            return Err(EscrowError::AddressInUse);
        }
        self.push_account(acc);
        Ok(())
    }

    /// Creates an account at `address` holding `data`; `payer` pays its deposit.
    pub(crate) fn create(&mut self, payer: &Key, address: Key, rent: u64, data: AccountData) -> (r: Result<(), EscrowError>)
        requires
            old(self).wf(),
        ensures
            final(self).wf(),
            final(self).cfg() == old(self).cfg(),
            step_follows(r, old(self)@, final(self)@, create_spec(old(self)@, *payer, address, rent, data)),
    {
        let pi = match self.find(payer) {
            Some(i) => i,
            None => return Err(EscrowError::AccountNotFound),
        };
        let p = self.accounts[pi];
        match p.data {
            AccountData::Wallet => {},
            _ => return Err(EscrowError::ConstraintMismatch),
        }
        if p.lamports < rent {
            return Err(EscrowError::InsufficientLamports);
        }
        if self.find(&address).is_some() {
            return Err(EscrowError::AddressInUse);
        }
        let ghost m0 = self@;
        self.set_account(pi, Account { address: p.address, lamports: p.lamports - rent, data: p.data });
        self.push_account(Account { address, lamports: rent, data });
        proof {
            assert(self@ =~= create_spec(m0, *payer, address, rent, data)->Ok_0);
        }
        Ok(())
    }

    /// Moves `amount` of `mint` from `from` to `to`, authorized by `authority`,
    /// checking that both accounts hold that asset type.
    pub(crate) fn transfer_checked(&mut self, from: &Key, to: &Key, mint: &Key, authority: &Key, amount: u64) -> (r: Result<(), EscrowError>)
        requires
            old(self).wf(),
        ensures
            final(self).wf(),
            final(self).cfg() == old(self).cfg(),
            step_follows(r, old(self)@, final(self)@, transfer_spec(old(self)@, *from, *to, *mint, *authority, amount)),
    {
        let fi = self.find(from);
        let ti = self.find(to);
        let mi = self.find(mint);
        if fi.is_none() || ti.is_none() || mi.is_none() {
            return Err(EscrowError::AccountNotFound);
        }
        let fi = fi.unwrap();
        let ti = ti.unwrap();
        let mi = mi.unwrap();
        let f = self.accounts[fi];
        let t = self.accounts[ti];
        let md = self.accounts[mi].data;
        match (f.data, t.data, md) {
            (
                AccountData::Token { mint: fm, owner: fo, amount: fa },
                AccountData::Token { mint: tm, owner: tow, amount: ta },
                AccountData::Mint { .. },
            ) => {
                if !(fm == *mint) || !(tm == *mint) {
                    return Err(EscrowError::ConstraintMismatch);
                }
                if !(fo == *authority) {
                    return Err(EscrowError::MissingSignature);
                }
                if fa < amount {
                    return Err(EscrowError::InsufficientFunds);
                }
                if *from == *to {
                    return Ok(());
                }
                if ta > u64::MAX - amount {
                    return Err(EscrowError::Overflow);
                }
                let ghost m0 = self@;
                self.set_account(fi, Account { address: f.address, lamports: f.lamports, data: AccountData::Token { mint: fm, owner: fo, amount: fa - amount } });
                self.set_account(ti, Account { address: t.address, lamports: t.lamports, data: AccountData::Token { mint: tm, owner: tow, amount: ta + amount } });
                proof {
                    assert(self@ =~= transfer_spec(m0, *from, *to, *mint, *authority, amount)->Ok_0);
                }
                Ok(())
            },
            _ => Err(EscrowError::ConstraintMismatch),
        }
    }

    /// Removes the account at index `ai`, its lamports going to the account at `di`.
    fn reclaim(&mut self, ai: usize, di: usize) -> (r: Result<(), EscrowError>)
        requires
            old(self).wf(),
            ai < old(self).accounts@.len(),
            di < old(self).accounts@.len(),
        ensures
            final(self).wf(),
            final(self).cfg() == old(self).cfg(),
            step_follows(
                r,
                old(self)@,
                final(self)@,
                reclaim_spec(old(self)@, old(self).accounts@[ai as int].address, old(self).accounts@[di as int].address),
            ),
    {
        let a = self.accounts[ai];
        let d = self.accounts[di];
        proof {
            lemma_map_at(self.accounts@, ai as int);
            lemma_map_at(self.accounts@, di as int);
        }
        if a.address == d.address {
            return Err(EscrowError::ConstraintMismatch);
        }
        if d.lamports > u64::MAX - a.lamports {
            return Err(EscrowError::Overflow);
        }
        let ghost m0 = self@;
        self.set_account(di, Account { address: d.address, lamports: d.lamports + a.lamports, data: d.data });
        self.remove_account(ai);
        proof {
            assert(self@ =~= reclaim_spec(m0, a.address, d.address)->Ok_0);
        }
        Ok(())
    }

    /// Closes the empty token account `account`, authorized by `authority`; its
    /// deposit goes to `destination`.
    pub(crate) fn close_token(&mut self, account: &Key, destination: &Key, authority: &Key) -> (r: Result<(), EscrowError>)
        requires
            old(self).wf(),
        ensures
            final(self).wf(),
            final(self).cfg() == old(self).cfg(),
            step_follows(r, old(self)@, final(self)@, close_token_spec(old(self)@, *account, *destination, *authority)),
    {
        let ai = self.find(account);
        let di = self.find(destination);
        if ai.is_none() || di.is_none() {
            return Err(EscrowError::AccountNotFound);
        }
        let ai = ai.unwrap();
        let di = di.unwrap();
        match self.accounts[ai].data {
            AccountData::Token { owner, amount, .. } => {
                if !(owner == *authority) {
                    return Err(EscrowError::MissingSignature);
                }
                if amount != 0 {
                    return Err(EscrowError::NonZeroBalance);
                }
                proof {
                    Key::lemma_view_injective(self.accounts@[ai as int].address, *account);
                    Key::lemma_view_injective(self.accounts@[di as int].address, *destination);
                }
                self.reclaim(ai, di)
            },
            _ => Err(EscrowError::ConstraintMismatch),
        }
    }

    /// Closes the offer record at `record`; its deposit goes to `destination`.
    pub(crate) fn close_record(&mut self, record: &Key, destination: &Key) -> (r: Result<(), EscrowError>)
        requires
            old(self).wf(),
        ensures
            final(self).wf(),
            final(self).cfg() == old(self).cfg(),
            step_follows(r, old(self)@, final(self)@, close_record_spec(old(self)@, *record, *destination)),
    {
        let ai = self.find(record);
        let di = self.find(destination);
        if ai.is_none() || di.is_none() {
            return Err(EscrowError::AccountNotFound);
        }
        let ai = ai.unwrap();
        let di = di.unwrap();
        match self.accounts[ai].data {
            AccountData::Record(_) => {
                proof {
                    Key::lemma_view_injective(self.accounts@[ai as int].address, *record);
                    Key::lemma_view_injective(self.accounts@[di as int].address, *destination);
                }
                self.reclaim(ai, di)
            },
            _ => Err(EscrowError::ConstraintMismatch),
        }
    }

    /// The token account of `owner` for `mint` at `address`: the one there, or a
    /// new empty one whose deposit `payer` pays.
    pub(crate) fn ensure_token(&mut self, payer: &Key, address: &Key, owner: &Key, mint: &Key) -> (r: Result<(), EscrowError>)
        requires
            old(self).wf(),
        ensures
            final(self).wf(),
            final(self).cfg() == old(self).cfg(),
            step_follows(
                r,
                old(self)@,
                final(self)@,
                ensure_token_spec(old(self)@, old(self).cfg().token_rent, *payer, *address, *owner, *mint),
            ),
    {
        match self.find(address) {
            Some(i) => match self.accounts[i].data {
                AccountData::Token { mint: tm, owner: to, .. } => {
                    if tm == *mint && to == *owner {
                        Ok(())
                    } else {
                        Err(EscrowError::ConstraintMismatch)
                    }
                },
                _ => Err(EscrowError::ConstraintMismatch),
            },
            None => {
                let rent = self.config.token_rent;
                self.create(payer, *address, rent, AccountData::Token { mint: *mint, owner: *owner, amount: 0 })
            },
        }
    }
}

} // verus!
