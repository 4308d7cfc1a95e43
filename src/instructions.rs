use crate::accounts::AccountData;
use crate::derivation::{
    associated_address, associated_address_of, escrow_address, escrow_seeds_of, found_program_address,
    is_escrow_signer, program_address,
};
use crate::error::EscrowError;
use crate::key::Key;
use crate::ledger::{
    close_record_spec, close_token_spec, create_spec, ensure_token_spec, step_follows, token_balance,
    transfer_spec, AccountMap, Config, Ledger,
};
use crate::state::Escrow;
use vstd::prelude::*;

verus! {

/// The accounts that opening an offer names.
#[derive(Clone, Copy, Debug, PartialEq, Eq)]
pub struct MakeOffer {
    /// The offer's creator, who signs and pays.
    pub maker: Key,
    /// The asset offered.
    pub mint_a: Key,
    /// The asset asked for.
    pub mint_b: Key,
    /// The maker's holding of `mint_a`.
    pub maker_ata_a: Key,
    /// The offer record's address.
    pub escrow: Key,
    /// The custody account: the record's holding of `mint_a`.
    pub vault: Key,
}

/// The accounts that taking an offer names.
#[derive(Clone, Copy, Debug, PartialEq, Eq)]
pub struct TakeOffer {
    /// The party that takes the offer, who signs and pays for new accounts.
    pub taker: Key,
    /// The offer's creator.
    pub maker: Key,
    pub mint_a: Key,
    pub mint_b: Key,
    /// The taker's holding of `mint_a`, created if absent.
    pub taker_ata_a: Key,
    /// The taker's holding of `mint_b`.
    pub taker_ata_b: Key,
    /// The maker's holding of `mint_b`, created if absent.
    pub maker_ata_b: Key,
    /// The offer record's address.
    pub escrow: Key,
    /// The custody account.
    pub vault: Key,
}

/// One call into the token program.
#[derive(Clone, Copy, Debug, PartialEq, Eq)]
pub enum TokenStep {
    /// A checked transfer of `amount` of `mint`, authorized by `authority`.
    Transfer { from: Key, to: Key, mint: Key, authority: Key, amount: u64 },
    /// Closing an empty token account, its deposit going to `destination`.
    Close { account: Key, destination: Key, authority: Key },
}

/// What one token-program call does to the accounts.
pub open spec fn token_step_spec(m: AccountMap, step: TokenStep) -> Result<AccountMap, EscrowError> {
    match step {
        TokenStep::Transfer { from, to, mint, authority, amount } => transfer_spec(m, from, to, mint, authority, amount),
        TokenStep::Close { account, destination, authority } => close_token_spec(m, account, destination, authority),
    }
}

/// The token-program calls that take an offer whose custody holds `held`: the
/// whole custody balance to the taker and custody closed, both authorized by the
/// offer address, then `amount` of `mint_b` from taker to maker on the taker's authority.
pub open spec fn take_offer_plan_spec(ctx: TakeOffer, held: u64, amount: u64) -> Seq<TokenStep> {
    seq![
        TokenStep::Transfer { from: ctx.vault, to: ctx.taker_ata_a, mint: ctx.mint_a, authority: ctx.escrow, amount: held },
        TokenStep::Close { account: ctx.vault, destination: ctx.maker, authority: ctx.escrow },
        TokenStep::Transfer { from: ctx.taker_ata_b, to: ctx.maker_ata_b, mint: ctx.mint_b, authority: ctx.taker, amount },
    ]
}

/// `k` names an asset type.
pub open spec fn is_mint(m: AccountMap, k: Key) -> bool {
    m.contains_key(k@) && m[k@].data is Mint
}

/// `address` is the associated token account of `wallet` for `mint`.
pub open spec fn is_associated(c: Config, wallet: Key, mint: Key, address: Key) -> bool {
    associated_address_of(c.ata_program@, c.token_program@, wallet@, mint@) == Some(address@)
}

/// A token account of `owner` for `mint` stands at `address`.
pub open spec fn is_token_of(m: AccountMap, address: Key, owner: Key, mint: Key) -> bool {
    m.contains_key(address@) && match m[address@].data {
        AccountData::Token { mint: tm, owner: to, .. } => tm@ == mint@ && to@ == owner@,
        _ => false,
    }
}

/// The call was signed by `who`, a participant's wallet: the one kind of
/// account that can sign, so that no record address ever does.
pub open spec fn signed_by(m: AccountMap, signer: Key, who: Key) -> bool {
    signer@ == who@ && m.contains_key(who@) && m[who@].data is Wallet
}

/// `k` is a participant's wallet.
pub open spec fn is_wallet(m: AccountMap, k: Key) -> bool {
    m.contains_key(k@) && m[k@].data is Wallet
}

/// The seeds with bump of `r` derive `address`: the proof that lets the program
/// sign for the record at `address`.
pub open spec fn signs_for(c: Config, r: Escrow, address: Key) -> bool {
    program_address(escrow_seeds_of(r.maker@, r.seed).push(seq![r.bump]), c.program_id@) == Some(address@)
}

/// What opening an offer does: check the accounts named, then create the record
/// and its empty custody account, both paid by the maker.
pub open spec fn init_escrow_spec(c: Config, m: AccountMap, ctx: MakeOffer, signer: Key, seed: u64, receive: u64) -> Result<AccountMap, EscrowError> {
    if !signed_by(m, signer, ctx.maker) {
        Err(EscrowError::MissingSignature)
    } else if !is_mint(m, ctx.mint_a) || !is_mint(m, ctx.mint_b) {
        Err(EscrowError::ConstraintMismatch)
    } else if !is_token_of(m, ctx.maker_ata_a, ctx.maker, ctx.mint_a) || !is_associated(c, ctx.maker, ctx.mint_a, ctx.maker_ata_a) {
        Err(EscrowError::ConstraintMismatch)
    } else {
        match found_program_address(escrow_seeds_of(ctx.maker@, seed), c.program_id@) {
            None => Err(EscrowError::DerivationFailed),
            Some((a, bump)) => {
                let record = Escrow { seed, maker: ctx.maker, mint_a: ctx.mint_a, mint_b: ctx.mint_b, receive, bump };
                if a != ctx.escrow@ || !signs_for(c, record, ctx.escrow) {
                    Err(EscrowError::SeedsMismatch)
                } else if !is_associated(c, ctx.escrow, ctx.mint_a, ctx.vault) {
                    Err(EscrowError::ConstraintMismatch)
                } else {
                    match create_spec(m, ctx.maker, ctx.escrow, c.record_rent, AccountData::Record(record)) {
                        Err(e) => Err(e),
                        Ok(m1) => create_spec(
                            m1,
                            ctx.maker,
                            ctx.vault,
                            c.token_rent,
                            AccountData::Token { mint: ctx.mint_a, owner: ctx.escrow, amount: 0 },
                        ),
                    }
                }
            },
        }
    }
}

/// What funding an offer does: check the record against the accounts named,
/// then move `amount` of `mint_a` from the maker into custody.
pub open spec fn deposit_spec(c: Config, m: AccountMap, ctx: MakeOffer, signer: Key, amount: u64) -> Result<AccountMap, EscrowError> {
    if !signed_by(m, signer, ctx.maker) {
        Err(EscrowError::MissingSignature)
    } else if !m.contains_key(ctx.escrow@) {
        Err(EscrowError::AccountNotFound)
    } else {
        match m[ctx.escrow@].data {
            AccountData::Record(r) => {
                if r.maker@ != ctx.maker@ || r.mint_a@ != ctx.mint_a@ {
                    Err(EscrowError::ConstraintMismatch)
                } else if !signs_for(c, r, ctx.escrow) {
                    Err(EscrowError::SeedsMismatch)
                } else if !is_associated(c, ctx.escrow, ctx.mint_a, ctx.vault) || !is_associated(c, ctx.maker, ctx.mint_a, ctx.maker_ata_a) {
                    Err(EscrowError::ConstraintMismatch)
                } else {
                    transfer_spec(m, ctx.maker_ata_a, ctx.vault, ctx.mint_a, ctx.maker, amount)
                }
            },
            _ => Err(EscrowError::ConstraintMismatch),
        }
    }
}

/// What opening and funding an offer in one step does: both, or nothing.
pub open spec fn open_offer_spec(c: Config, m: AccountMap, ctx: MakeOffer, signer: Key, seed: u64, receive: u64, amount: u64) -> Result<AccountMap, EscrowError> {
    match init_escrow_spec(c, m, ctx, signer, seed, receive) {
        Err(e) => Err(e),
        Ok(m1) => deposit_spec(c, m1, ctx, signer, amount),
    }
}

/// The steps of taking an offer once its accounts are checked: the two holdings
/// that may be missing are created, the whole custody balance goes to the taker,
/// custody closes, `amount` of `mint_b` goes from taker to maker, the record closes.
pub open spec fn take_offer_steps_spec(c: Config, m: AccountMap, ctx: TakeOffer, amount: u64) -> Result<AccountMap, EscrowError> {
    match ensure_token_spec(m, c.token_rent, ctx.taker, ctx.taker_ata_a, ctx.taker, ctx.mint_a) {
        Err(e) => Err(e),
        Ok(m1) => match ensure_token_spec(m1, c.token_rent, ctx.taker, ctx.maker_ata_b, ctx.maker, ctx.mint_b) {
            Err(e) => Err(e),
            Ok(m2) => {
                let plan = take_offer_plan_spec(ctx, token_balance(m2, ctx.vault@) as u64, amount);
                match token_step_spec(m2, plan[0]) {
                    Err(e) => Err(e),
                    Ok(m3) => match token_step_spec(m3, plan[1]) {
                        Err(e) => Err(e),
                        Ok(m4) => match token_step_spec(m4, plan[2]) {
                            Err(e) => Err(e),
                            Ok(m5) => close_record_spec(m5, ctx.escrow, ctx.maker),
                        },
                    },
                }
            },
        },
    }
}

/// The checks of taking an offer: the record exists, names the maker and mints
/// supplied, re-derives its own address from its stored seeds, and each holding
/// is the associated account that it must be.
pub open spec fn take_offer_checks(c: Config, m: AccountMap, ctx: TakeOffer, signer: Key) -> Result<Escrow, EscrowError> {
    if !signed_by(m, signer, ctx.taker) {
        Err(EscrowError::MissingSignature)
    } else if !m.contains_key(ctx.escrow@) {
        Err(EscrowError::AccountNotFound)
    } else {
        match m[ctx.escrow@].data {
            AccountData::Record(r) => {
                if r.maker@ != ctx.maker@ || r.mint_a@ != ctx.mint_a@ || r.mint_b@ != ctx.mint_b@ || !is_wallet(m, ctx.maker) {
                    Err(EscrowError::ConstraintMismatch)
                } else if !signs_for(c, r, ctx.escrow) {
                    Err(EscrowError::SeedsMismatch)
                } else if !is_associated(c, ctx.escrow, ctx.mint_a, ctx.vault)
                    || !is_associated(c, ctx.taker, ctx.mint_a, ctx.taker_ata_a)
                    || !is_associated(c, ctx.taker, ctx.mint_b, ctx.taker_ata_b)
                    || !is_associated(c, ctx.maker, ctx.mint_b, ctx.maker_ata_b) {
                    Err(EscrowError::ConstraintMismatch)
                } else {
                    Ok(r)
                }
            },
            _ => Err(EscrowError::ConstraintMismatch),
        }
    }
}

/// What taking an offer does: its checks, then its steps, all or nothing.
pub open spec fn take_offer_spec(c: Config, m: AccountMap, ctx: TakeOffer, signer: Key, amount: u64) -> Result<AccountMap, EscrowError> {
    match take_offer_checks(c, m, ctx, signer) {
        Err(e) => Err(e),
        Ok(_) => take_offer_steps_spec(c, m, ctx, amount),
    }
}

/// Whether `address` is the associated token account of `wallet` for `mint`.
fn check_associated(c: &Config, wallet: &Key, mint: &Key, address: &Key) -> (r: bool)
    ensures
        r == is_associated(*c, *wallet, *mint, *address),
{
    match associated_address(&c.ata_program, &c.token_program, wallet, mint) {
        Some(a) => a == *address,
        None => false,
    }
}

fn check_signed(ledger: &Ledger, signer: &Key, who: &Key) -> (r: bool)
    requires
        ledger.wf(),
    ensures
        r == signed_by(ledger@, *signer, *who),
{
    *signer == *who && check_wallet(ledger, who)
}

fn check_wallet(ledger: &Ledger, k: &Key) -> (r: bool)
    requires
        ledger.wf(),
    ensures
        r == is_wallet(ledger@, *k),
{
    match ledger.account(k) {
        Some(acc) => matches!(acc.data, AccountData::Wallet),
        None => false,
    }
}

fn check_mint(ledger: &Ledger, k: &Key) -> (r: bool)
    requires
        ledger.wf(),
    ensures
        r == is_mint(ledger@, *k),
{
    match ledger.account(k) {
        Some(acc) => matches!(acc.data, AccountData::Mint { .. }),
        None => false,
    }
}

fn check_token_of(ledger: &Ledger, address: &Key, owner: &Key, mint: &Key) -> (r: bool)
    requires
        ledger.wf(),
    ensures
        r == is_token_of(ledger@, *address, *owner, *mint),
{
    match ledger.account(address) {
        Some(acc) => match acc.data {
            AccountData::Token { mint: tm, owner: to, .. } => tm == *mint && to == *owner,
            _ => false,
        },
        None => false,
    }
}

/// The record at `address`, where one stands there.
fn record_at(ledger: &Ledger, address: &Key) -> (r: Result<Escrow, EscrowError>)
    requires
        ledger.wf(),
    ensures
        match r {
            Ok(rec) => ledger@.contains_key(address@) && ledger@[address@].data == AccountData::Record(rec),
            Err(e) => {
                ||| (e == EscrowError::AccountNotFound && !ledger@.contains_key(address@))
                ||| (e == EscrowError::ConstraintMismatch && ledger@.contains_key(address@)
                    && !(ledger@[address@].data is Record))
            },
        },
{
    match ledger.account(address) {
        Some(acc) => match acc.data {
            AccountData::Record(rec) => Ok(rec),
            _ => Err(EscrowError::ConstraintMismatch),
        },
        None => Err(EscrowError::AccountNotFound),
    }
}

impl MakeOffer {
    /// Opens an offer: creates the record of `seed` and `receive` at the address
    /// that the maker and `seed` derive, and its empty custody account. Both come
    /// into being, or neither. `signer` is the key that signed the call: it must
    /// be the maker's wallet.
    pub fn init_escrow(&self, ledger: &mut Ledger, signer: &Key, seed: u64, receive: u64) -> (r: Result<(), EscrowError>)
        requires
            old(ledger).wf(),
        ensures
            final(ledger).wf(),
            final(ledger).cfg() == old(ledger).cfg(),
            step_follows(r, old(ledger)@, final(ledger)@, init_escrow_spec(old(ledger).cfg(), old(ledger)@, *self, *signer, seed, receive)),
    {
        let c = ledger.config();
        if !check_signed(ledger, signer, &self.maker) {
            return Err(EscrowError::MissingSignature);
        }
        if !check_mint(ledger, &self.mint_a) || !check_mint(ledger, &self.mint_b) {
            return Err(EscrowError::ConstraintMismatch);
        }
        if !check_token_of(ledger, &self.maker_ata_a, &self.maker, &self.mint_a)
            || !check_associated(&c, &self.maker, &self.mint_a, &self.maker_ata_a) {
            return Err(EscrowError::ConstraintMismatch);
        }
        let bump = match escrow_address(&c.program_id, &self.maker, seed) {
            None => return Err(EscrowError::DerivationFailed),
            Some((a, b)) => {
                if !(a == self.escrow) {
                    return Err(EscrowError::SeedsMismatch);
                }
                b
            },
        };
        if !check_associated(&c, &self.escrow, &self.mint_a, &self.vault) {
            return Err(EscrowError::ConstraintMismatch);
        }
        let record = Escrow { seed, maker: self.maker, mint_a: self.mint_a, mint_b: self.mint_b, receive, bump };
        let saved = ledger.duplicate();
        let r1 = ledger.create(&self.maker, self.escrow, c.record_rent, AccountData::Record(record));
        if r1.is_err() {
            return r1;
        }
        let r2 = ledger.create(&self.maker, self.vault, c.token_rent, AccountData::Token { mint: self.mint_a, owner: self.escrow, amount: 0 });
        if r2.is_err() {
            *ledger = saved;
        }
        r2
    }

    /// Funds an open offer: moves `amount` of `mint_a` from the maker's holding
    /// into custody. `signer` must be the maker's wallet.
    pub fn deposit(&self, ledger: &mut Ledger, signer: &Key, amount: u64) -> (r: Result<(), EscrowError>)
        requires
            old(ledger).wf(),
        ensures
            final(ledger).wf(),
            final(ledger).cfg() == old(ledger).cfg(),
            step_follows(r, old(ledger)@, final(ledger)@, deposit_spec(old(ledger).cfg(), old(ledger)@, *self, *signer, amount)),
    {
        let c = ledger.config();
        if !check_signed(ledger, signer, &self.maker) {
            return Err(EscrowError::MissingSignature);
        }
        let rec = match record_at(ledger, &self.escrow) {
            Ok(rec) => rec,
            Err(e) => return Err(e),
        };
        if !(rec.maker == self.maker) || !(rec.mint_a == self.mint_a) {
            return Err(EscrowError::ConstraintMismatch);
        }
        if !is_escrow_signer(&c.program_id, &rec.maker, rec.seed, rec.bump, &self.escrow) {
            return Err(EscrowError::SeedsMismatch);
        }
        if !check_associated(&c, &self.escrow, &self.mint_a, &self.vault)
            || !check_associated(&c, &self.maker, &self.mint_a, &self.maker_ata_a) {
            return Err(EscrowError::ConstraintMismatch);
        }
        ledger.transfer_checked(&self.maker_ata_a, &self.vault, &self.mint_a, &self.maker, amount)
    }
}

/// Makes one token-program call on the ledger.
fn run_token_step(ledger: &mut Ledger, step: TokenStep) -> (r: Result<(), EscrowError>)
    requires
        old(ledger).wf(),
    ensures
        final(ledger).wf(),
        final(ledger).cfg() == old(ledger).cfg(),
        step_follows(r, old(ledger)@, final(ledger)@, token_step_spec(old(ledger)@, step)),
{
    match step {
        TokenStep::Transfer { from, to, mint, authority, amount } => ledger.transfer_checked(&from, &to, &mint, &authority, amount),
        TokenStep::Close { account, destination, authority } => ledger.close_token(&account, &destination, &authority),
    }
}

impl MakeOffer {
    /// Opens an offer and funds it with `amount` in one step: the record exists
    /// with a custody account holding `amount`, or nothing has changed.
    pub fn open_offer(&self, ledger: &mut Ledger, signer: &Key, seed: u64, receive: u64, amount: u64) -> (r: Result<(), EscrowError>)
        requires
            old(ledger).wf(),
        ensures
            final(ledger).wf(),
            final(ledger).cfg() == old(ledger).cfg(),
            step_follows(r, old(ledger)@, final(ledger)@, open_offer_spec(old(ledger).cfg(), old(ledger)@, *self, *signer, seed, receive, amount)),
    {
        let saved = ledger.duplicate();
        let r = self.init_escrow(ledger, signer, seed, receive);
        if r.is_err() {
            return r;
        }
        let r = self.deposit(ledger, signer, amount);
        if r.is_err() {
            *ledger = saved;
        }
        r
    }
}

impl TakeOffer {
    /// The token-program calls that take this offer when its custody holds
    /// `held` and the taker pays `amount`, in the order they are made.
    pub fn take_offer_plan(&self, held: u64, amount: u64) -> (r: Vec<TokenStep>)
        ensures
            r@ == take_offer_plan_spec(*self, held, amount),
    {
        let r = vec![
            TokenStep::Transfer { from: self.vault, to: self.taker_ata_a, mint: self.mint_a, authority: self.escrow, amount: held },
            TokenStep::Close { account: self.vault, destination: self.maker, authority: self.escrow },
            TokenStep::Transfer { from: self.taker_ata_b, to: self.maker_ata_b, mint: self.mint_b, authority: self.taker, amount },
        ];
        assert(r@ =~= take_offer_plan_spec(*self, held, amount));
        r
    }

    fn take_offer_steps(&self, ledger: &mut Ledger, amount: u64) -> (r: Result<(), EscrowError>)
        requires
            old(ledger).wf(),
        ensures
            final(ledger).wf(),
            final(ledger).cfg() == old(ledger).cfg(),
            match take_offer_steps_spec(old(ledger).cfg(), old(ledger)@, *self, amount) {
                Ok(m) => r is Ok && final(ledger)@ == m,
                Err(e) => r == Err::<(), EscrowError>(e),
            },
    {
        let r = ledger.ensure_token(&self.taker, &self.taker_ata_a, &self.taker, &self.mint_a);
        if r.is_err() {
            return r;
        }
        let r = ledger.ensure_token(&self.taker, &self.maker_ata_b, &self.maker, &self.mint_b);
        if r.is_err() {
            return r;
        }
        let held: u64 = match ledger.account(&self.vault) {
            Some(acc) => match acc.data {
                AccountData::Token { amount, .. } => amount,
                _ => 0,
            },
            None => 0,
        };
        let plan = self.take_offer_plan(held, amount);
        let r = run_token_step(ledger, plan[0]);
        if r.is_err() {
            return r;
        }
        let r = run_token_step(ledger, plan[1]);
        if r.is_err() {
            return r;
        }
        let r = run_token_step(ledger, plan[2]);
        if r.is_err() {
            return r;
        }
        ledger.close_record(&self.escrow, &self.maker)
    }

    /// Takes an offer: pays the taker the whole custody balance, closes custody,
    /// pays the maker `amount` of `mint_b` from the taker, and closes the record.
    /// All of it happens, or none. `signer` must be the taker's wallet.
    pub fn take_offer(&self, ledger: &mut Ledger, signer: &Key, amount: u64) -> (r: Result<(), EscrowError>)
        requires
            old(ledger).wf(),
        ensures
            final(ledger).wf(),
            final(ledger).cfg() == old(ledger).cfg(),
            step_follows(r, old(ledger)@, final(ledger)@, take_offer_spec(old(ledger).cfg(), old(ledger)@, *self, *signer, amount)),
    {
        let c = ledger.config();
        if !check_signed(ledger, signer, &self.taker) {
            return Err(EscrowError::MissingSignature);
        }
        let rec = match record_at(ledger, &self.escrow) {
            Ok(rec) => rec,
            Err(e) => return Err(e),
        };
        if !(rec.maker == self.maker) || !(rec.mint_a == self.mint_a) || !(rec.mint_b == self.mint_b)
            || !check_wallet(ledger, &self.maker) {
            return Err(EscrowError::ConstraintMismatch);
        }
        if !is_escrow_signer(&c.program_id, &rec.maker, rec.seed, rec.bump, &self.escrow) {
            return Err(EscrowError::SeedsMismatch);
        }
        if !check_associated(&c, &self.escrow, &self.mint_a, &self.vault)
            || !check_associated(&c, &self.taker, &self.mint_a, &self.taker_ata_a)
            || !check_associated(&c, &self.taker, &self.mint_b, &self.taker_ata_b)
            || !check_associated(&c, &self.maker, &self.mint_b, &self.maker_ata_b) {
            return Err(EscrowError::ConstraintMismatch);
        }
        let saved = ledger.duplicate();
        let r = self.take_offer_steps(ledger, amount);
        if r.is_err() {
            *ledger = saved;
        }
        r
    }
}

/// Opens an offer; see `MakeOffer::init_escrow`.
pub fn init_escrow(ctx: &MakeOffer, ledger: &mut Ledger, signer: &Key, seed: u64, receive: u64) -> (r: Result<(), EscrowError>)
    requires
        old(ledger).wf(),
    ensures
        final(ledger).wf(),
        final(ledger).cfg() == old(ledger).cfg(),
        step_follows(r, old(ledger)@, final(ledger)@, init_escrow_spec(old(ledger).cfg(), old(ledger)@, *ctx, *signer, seed, receive)),
{
    ctx.init_escrow(ledger, signer, seed, receive)
}

/// Funds an open offer; see `MakeOffer::deposit`.
pub fn deposit(ctx: &MakeOffer, ledger: &mut Ledger, signer: &Key, amount: u64) -> (r: Result<(), EscrowError>)
    requires
        old(ledger).wf(),
    ensures
        final(ledger).wf(),
        final(ledger).cfg() == old(ledger).cfg(),
        step_follows(r, old(ledger)@, final(ledger)@, deposit_spec(old(ledger).cfg(), old(ledger)@, *ctx, *signer, amount)),
{
    ctx.deposit(ledger, signer, amount)
}

/// Takes an offer; see `TakeOffer::take_offer`.
pub fn take_offer(ctx: &TakeOffer, ledger: &mut Ledger, signer: &Key, amount: u64) -> (r: Result<(), EscrowError>)
    requires
        old(ledger).wf(),
    ensures
        final(ledger).wf(),
        final(ledger).cfg() == old(ledger).cfg(),
        step_follows(r, old(ledger)@, final(ledger)@, take_offer_spec(old(ledger).cfg(), old(ledger)@, *ctx, *signer, amount)),
{
    ctx.take_offer(ledger, signer, amount)
}

} // verus!
