use anchor_escrow::{
    associated_address, deposit, escrow_address, escrow_seeds, init_escrow, is_escrow_signer, le_bytes_of,
    signer_seeds, take_offer, Account, AccountData, Config, Escrow, EscrowError, Key, Ledger, MakeOffer,
    TakeOffer, TokenStep,
};
use anchor_lang::prelude::Pubkey;
use std::str::FromStr;

const RECORD_RENT: u64 = 1_000;
const TOKEN_RENT: u64 = 2_000;
const START_LAMPORTS: u64 = 1_000_000;

fn key(b: u8) -> Key {
    Key::new([b; 32])
}

fn config() -> Config {
    let program = Pubkey::from_str("HbP6Y6ZKEaVdCVW9zAVMEch1mYo1rXbh4mZ7ZyEAugVf").unwrap();
    Config {
        program_id: Key::new(program.to_bytes()),
        token_program: Key::new(anchor_spl::token::ID.to_bytes()),
        ata_program: Key::new(anchor_spl::associated_token::ID.to_bytes()),
        record_rent: RECORD_RENT,
        token_rent: TOKEN_RENT,
    }
}

struct World {
    ledger: Ledger,
    maker: Key,
    taker: Key,
    mint_a: Key,
    mint_b: Key,
}

impl World {
    fn ata(&self, wallet: &Key, mint: &Key) -> Key {
        let c = self.ledger.config();
        associated_address(&c.ata_program, &c.token_program, wallet, mint).unwrap()
    }

    fn escrow(&self, seed: u64) -> Key {
        escrow_address(&self.ledger.config().program_id, &self.maker, seed).unwrap().0
    }

    fn make(&self, seed: u64) -> MakeOffer {
        let escrow = self.escrow(seed);
        MakeOffer {
            maker: self.maker,
            mint_a: self.mint_a,
            mint_b: self.mint_b,
            maker_ata_a: self.ata(&self.maker, &self.mint_a),
            escrow,
            vault: self.ata(&escrow, &self.mint_a),
        }
    }

    fn take(&self, seed: u64) -> TakeOffer {
        let escrow = self.escrow(seed);
        TakeOffer {
            taker: self.taker,
            maker: self.maker,
            mint_a: self.mint_a,
            mint_b: self.mint_b,
            taker_ata_a: self.ata(&self.taker, &self.mint_a),
            taker_ata_b: self.ata(&self.taker, &self.mint_b),
            maker_ata_b: self.ata(&self.maker, &self.mint_b),
            escrow,
            vault: self.ata(&escrow, &self.mint_a),
        }
    }

    fn add_token(&mut self, owner: &Key, mint: &Key, amount: u64) {
        let address = self.ata(owner, mint);
        let acc = Account {
            address,
            lamports: TOKEN_RENT,
            data: AccountData::Token { mint: *mint, owner: *owner, amount },
        };
        self.ledger.add_account(acc).unwrap();
    }

    fn balance(&self, address: &Key) -> u64 {
        match self.ledger.account(address) {
            Some(Account { data: AccountData::Token { amount, .. }, .. }) => amount,
            _ => 0,
        }
    }

    fn lamports(&self, address: &Key) -> u64 {
        self.ledger.account(address).map(|a| a.lamports).unwrap_or(0)
    }

    fn has_account(&self, address: &Key) -> bool {
        self.ledger.account(address).is_some()
    }

    fn snapshot(&self) -> Vec<Option<Account>> {
        let mut keys = vec![self.maker, self.taker, self.mint_a, self.mint_b, self.escrow(1)];
        keys.push(self.ata(&self.maker, &self.mint_a));
        keys.push(self.ata(&self.maker, &self.mint_b));
        keys.push(self.ata(&self.taker, &self.mint_a));
        keys.push(self.ata(&self.taker, &self.mint_b));
        keys.push(self.ata(&self.escrow(1), &self.mint_a));
        keys.iter().map(|k| self.ledger.account(k)).collect()
    }
}

/// A maker with 100 of A and a taker with 80 of B.
fn world() -> World {
    let mut w = World { ledger: Ledger::new(config()), maker: key(1), taker: key(2), mint_a: key(10), mint_b: key(11) };
    for k in [w.maker, w.taker] {
        w.ledger.add_account(Account { address: k, lamports: START_LAMPORTS, data: AccountData::Wallet }).unwrap();
    }
    for k in [w.mint_a, w.mint_b] {
        w.ledger.add_account(Account { address: k, lamports: 0, data: AccountData::Mint { decimals: 6 } }).unwrap();
    }
    let (maker, taker, mint_a, mint_b) = (w.maker, w.taker, w.mint_a, w.mint_b);
    w.add_token(&maker, &mint_a, 100);
    w.add_token(&taker, &mint_b, 80);
    w
}

fn open_offer(w: &mut World, seed: u64, receive: u64, amount: u64) {
    let ctx = w.make(seed);
    assert_eq!(init_escrow(&ctx, &mut w.ledger, &ctx.maker, seed, receive), Ok(()));
    assert_eq!(deposit(&ctx, &mut w.ledger, &ctx.maker, amount), Ok(()));
}

#[test]
fn open_and_take_offer() {
    let mut w = world();
    open_offer(&mut w, 1, 50, 100);
    let ctx = w.take(1);
    assert_eq!(w.balance(&ctx.vault), 100);
    match w.ledger.account(&ctx.escrow).unwrap().data {
        AccountData::Record(r) => {
            assert_eq!(r.receive, 50);
            assert_eq!(r.seed, 1);
            assert!(r.maker == w.maker && r.mint_a == w.mint_a && r.mint_b == w.mint_b);
        },
        _ => panic!("no record"),
    }
    assert_eq!(w.lamports(&w.maker), START_LAMPORTS - RECORD_RENT - TOKEN_RENT);

    assert_eq!(take_offer(&ctx, &mut w.ledger, &ctx.taker, 50), Ok(()));
    assert_eq!(w.balance(&ctx.taker_ata_a), 100);
    assert_eq!(w.balance(&ctx.taker_ata_b), 30);
    assert_eq!(w.balance(&ctx.maker_ata_b), 50);
    assert_eq!(w.balance(&w.ata(&w.maker, &w.mint_a)), 0);
    assert!(!w.has_account(&ctx.escrow));
    assert!(!w.has_account(&ctx.vault));
    assert_eq!(w.lamports(&w.maker), START_LAMPORTS);
    assert_eq!(w.lamports(&w.taker), START_LAMPORTS - 2 * TOKEN_RENT);
}

#[test]
fn take_offer_underpaying_still_drains_custody() {
    let mut w = world();
    open_offer(&mut w, 1, 50, 100);
    let ctx = w.take(1);
    assert_eq!(ctx.take_offer(&mut w.ledger, &ctx.taker, 10), Ok(()));
    assert_eq!(w.balance(&ctx.taker_ata_a), 100);
    assert_eq!(w.balance(&ctx.maker_ata_b), 10);
    assert_eq!(w.balance(&ctx.taker_ata_b), 70);
    assert!(!w.has_account(&ctx.escrow));
    assert!(!w.has_account(&ctx.vault));
}

#[test]
fn take_offer_twice_fails_without_change() {
    let mut w = world();
    open_offer(&mut w, 1, 50, 100);
    let ctx = w.take(1);
    assert_eq!(take_offer(&ctx, &mut w.ledger, &ctx.taker, 50), Ok(()));
    let before = w.snapshot();
    assert_eq!(take_offer(&ctx, &mut w.ledger, &ctx.taker, 30), Err(EscrowError::AccountNotFound));
    assert_eq!(w.snapshot(), before);
}

#[test]
fn take_offer_with_other_maker_is_rejected() {
    let mut w = world();
    open_offer(&mut w, 1, 50, 100);
    let mut ctx = w.take(1);
    ctx.maker = w.taker;
    ctx.maker_ata_b = w.ata(&w.taker, &w.mint_b);
    let before = w.snapshot();
    assert_eq!(take_offer(&ctx, &mut w.ledger, &ctx.taker, 50), Err(EscrowError::ConstraintMismatch));
    assert_eq!(w.snapshot(), before);
}

#[test]
fn take_offer_with_other_mint_a_is_rejected() {
    let mut w = world();
    open_offer(&mut w, 1, 50, 100);
    let mut ctx = w.take(1);
    ctx.mint_a = w.mint_b;
    let before = w.snapshot();
    assert_eq!(take_offer(&ctx, &mut w.ledger, &ctx.taker, 50), Err(EscrowError::ConstraintMismatch));
    assert_eq!(w.snapshot(), before);
}

#[test]
fn take_offer_with_other_mint_b_is_rejected() {
    let mut w = world();
    open_offer(&mut w, 1, 50, 100);
    let mut ctx = w.take(1);
    ctx.mint_b = w.mint_a;
    let before = w.snapshot();
    assert_eq!(take_offer(&ctx, &mut w.ledger, &ctx.taker, 50), Err(EscrowError::ConstraintMismatch));
    assert_eq!(w.snapshot(), before);
}

#[test]
fn take_offer_with_other_vault_is_rejected() {
    let mut w = world();
    open_offer(&mut w, 1, 50, 100);
    let mut ctx = w.take(1);
    ctx.vault = w.ata(&w.taker, &w.mint_a);
    assert_eq!(take_offer(&ctx, &mut w.ledger, &ctx.taker, 50), Err(EscrowError::ConstraintMismatch));
}

#[test]
fn take_offer_short_of_mint_b_undoes_every_step() {
    let mut w = world();
    open_offer(&mut w, 1, 50, 100);
    let ctx = w.take(1);
    let before = w.snapshot();
    assert_eq!(take_offer(&ctx, &mut w.ledger, &ctx.taker, 81), Err(EscrowError::InsufficientFunds));
    assert_eq!(w.snapshot(), before);
    assert!(!w.has_account(&ctx.taker_ata_a));
    assert_eq!(w.balance(&ctx.vault), 100);
}

#[test]
fn take_offer_overflowing_maker_balance_is_rejected() {
    let mut w = world();
    open_offer(&mut w, 1, 50, 100);
    let (maker, mint_b) = (w.maker, w.mint_b);
    w.add_token(&maker, &mint_b, u64::MAX);
    let ctx = w.take(1);
    let before = w.snapshot();
    assert_eq!(take_offer(&ctx, &mut w.ledger, &ctx.taker, 50), Err(EscrowError::Overflow));
    assert_eq!(w.snapshot(), before);
}

#[test]
fn take_offer_of_unknown_seed_is_not_found() {
    let mut w = world();
    open_offer(&mut w, 1, 50, 100);
    let ctx = w.take(2);
    assert_eq!(take_offer(&ctx, &mut w.ledger, &ctx.taker, 50), Err(EscrowError::AccountNotFound));
}

#[test]
fn init_escrow_twice_with_one_seed_is_address_in_use() {
    let mut w = world();
    let ctx = w.make(1);
    assert_eq!(ctx.init_escrow(&mut w.ledger, &ctx.maker, 1, 50), Ok(()));
    let before = w.snapshot();
    assert_eq!(ctx.init_escrow(&mut w.ledger, &ctx.maker, 1, 70), Err(EscrowError::AddressInUse));
    assert_eq!(w.snapshot(), before);
}

#[test]
fn two_seeds_give_two_offers() {
    let mut w = world();
    open_offer(&mut w, 1, 50, 60);
    open_offer(&mut w, 2, 20, 40);
    assert!(w.escrow(1) != w.escrow(2));
    assert_eq!(w.balance(&w.make(1).vault), 60);
    assert_eq!(w.balance(&w.make(2).vault), 40);
}

#[test]
fn init_escrow_at_underived_address_is_seeds_mismatch() {
    let mut w = world();
    let mut ctx = w.make(1);
    ctx.escrow = w.escrow(2);
    assert_eq!(init_escrow(&ctx, &mut w.ledger, &ctx.maker, 1, 50), Err(EscrowError::SeedsMismatch));
    assert!(!w.has_account(&w.escrow(2)));
}

#[test]
fn init_escrow_with_non_mint_is_rejected() {
    let mut w = world();
    let mut ctx = w.make(1);
    ctx.mint_b = w.taker;
    assert_eq!(init_escrow(&ctx, &mut w.ledger, &ctx.maker, 1, 50), Err(EscrowError::ConstraintMismatch));
    assert!(!w.has_account(&ctx.escrow));
}

#[test]
fn init_escrow_without_lamports_creates_nothing() {
    let mut w = World { ledger: Ledger::new(config()), maker: key(1), taker: key(2), mint_a: key(10), mint_b: key(11) };
    let maker = w.maker;
    w.ledger.add_account(Account { address: maker, lamports: RECORD_RENT + TOKEN_RENT - 1, data: AccountData::Wallet }).unwrap();
    for k in [w.mint_a, w.mint_b] {
        w.ledger.add_account(Account { address: k, lamports: 0, data: AccountData::Mint { decimals: 6 } }).unwrap();
    }
    let mint_a = w.mint_a;
    w.add_token(&maker, &mint_a, 100);
    let ctx = w.make(1);
    assert_eq!(init_escrow(&ctx, &mut w.ledger, &ctx.maker, 1, 50), Err(EscrowError::InsufficientLamports));
    assert!(!w.has_account(&ctx.escrow));
    assert!(!w.has_account(&ctx.vault));
    assert_eq!(w.lamports(&maker), RECORD_RENT + TOKEN_RENT - 1);
}

#[test]
fn deposit_beyond_balance_is_insufficient_funds() {
    let mut w = world();
    let ctx = w.make(1);
    assert_eq!(init_escrow(&ctx, &mut w.ledger, &ctx.maker, 1, 50), Ok(()));
    assert_eq!(ctx.deposit(&mut w.ledger, &ctx.maker, 101), Err(EscrowError::InsufficientFunds));
    assert_eq!(w.balance(&ctx.vault), 0);
    assert_eq!(w.balance(&ctx.maker_ata_a), 100);
}

#[test]
fn deposit_without_record_is_not_found() {
    let mut w = world();
    let ctx = w.make(1);
    assert_eq!(deposit(&ctx, &mut w.ledger, &ctx.maker, 10), Err(EscrowError::AccountNotFound));
}

#[test]
fn deposit_from_holding_of_another_owner_lacks_signature() {
    let mut w = world();
    let ctx = w.make(1);
    assert_eq!(init_escrow(&ctx, &mut w.ledger, &ctx.maker, 1, 50), Ok(()));
    let mut other = w.make(1);
    other.maker_ata_a = w.ata(&w.taker, &w.mint_a);
    let (taker, mint_a) = (w.taker, w.mint_a);
    w.add_token(&taker, &mint_a, 10);
    assert_eq!(deposit(&other, &mut w.ledger, &other.maker, 5), Err(EscrowError::ConstraintMismatch));
    let stranger = key(7);
    let address = w.ata(&w.maker, &w.mint_b);
    w.ledger
        .add_account(Account { address, lamports: 0, data: AccountData::Token { mint: w.mint_a, owner: stranger, amount: 9 } })
        .unwrap();
    let mut forged = w.make(1);
    forged.maker_ata_a = address;
    assert_eq!(deposit(&forged, &mut w.ledger, &forged.maker, 5), Err(EscrowError::ConstraintMismatch));
}

#[test]
fn add_account_at_used_address_is_rejected() {
    let mut w = world();
    let maker = w.maker;
    assert_eq!(
        w.ledger.add_account(Account { address: maker, lamports: 5, data: AccountData::Wallet }),
        Err(EscrowError::AddressInUse)
    );
    assert_eq!(w.lamports(&maker), START_LAMPORTS);
}

#[test]
fn le_bytes_are_least_significant_first() {
    assert_eq!(le_bytes_of(1), vec![1, 0, 0, 0, 0, 0, 0, 0]);
    assert_eq!(le_bytes_of(0x0102_0304_0506_0708), vec![8, 7, 6, 5, 4, 3, 2, 1]);
    assert_eq!(le_bytes_of(u64::MAX), vec![255; 8]);
}

#[test]
fn escrow_seeds_are_tag_maker_seed() {
    let maker = key(3);
    let seeds = escrow_seeds(&maker, 258);
    assert_eq!(seeds, vec![b"escrow".to_vec(), vec![3u8; 32], vec![2, 1, 0, 0, 0, 0, 0, 0]]);
    let with_bump = signer_seeds(&maker, 258, 254);
    assert_eq!(with_bump.len(), 4);
    assert_eq!(with_bump[3], vec![254]);
}

#[test]
fn escrow_address_is_the_program_derived_address() {
    let c = config();
    let maker = key(3);
    let (address, bump) = escrow_address(&c.program_id, &maker, 7).unwrap();
    let program = Pubkey::new_from_array(c.program_id.bytes);
    let (expected, expected_bump) =
        Pubkey::find_program_address(&[b"escrow", &[3u8; 32], &7u64.to_le_bytes()], &program);
    assert_eq!(address.bytes, expected.to_bytes());
    assert_eq!(bump, expected_bump);
    assert!(address != maker);
}

#[test]
fn escrow_signer_needs_the_exact_seeds() {
    let c = config();
    let maker = key(3);
    let (address, bump) = escrow_address(&c.program_id, &maker, 7).unwrap();
    assert!(is_escrow_signer(&c.program_id, &maker, 7, bump, &address));
    assert!(!is_escrow_signer(&c.program_id, &maker, 8, bump, &address));
    assert!(!is_escrow_signer(&c.program_id, &key(4), 7, bump, &address));
    assert!(!is_escrow_signer(&c.program_id, &maker, 7, bump.wrapping_sub(1), &address));
}

#[test]
fn associated_address_is_the_token_accounts_address() {
    let c = config();
    let wallet = key(5);
    let mint = key(6);
    let a = associated_address(&c.ata_program, &c.token_program, &wallet, &mint).unwrap();
    let expected = anchor_spl::associated_token::get_associated_token_address_with_program_id(
        &Pubkey::new_from_array(wallet.bytes),
        &Pubkey::new_from_array(mint.bytes),
        &anchor_spl::token::ID,
    );
    assert_eq!(a.bytes, expected.to_bytes());
    assert!(a != wallet && a != mint);
}

#[test]
fn keys_compare_by_bytes() {
    let mut b = [9u8; 32];
    assert!(Key::new(b) == key(9));
    b[31] = 8;
    assert!(Key::new(b) != key(9));
    let r = Escrow { seed: 1, maker: key(1), mint_a: key(2), mint_b: key(3), receive: 4, bump: 5 };
    assert_eq!(r, r.clone());
}

#[test]
fn taking_one_offer_leaves_the_other_backed() {
    let mut w = world();
    open_offer(&mut w, 1, 50, 60);
    open_offer(&mut w, 2, 20, 40);
    let first = w.take(1);
    assert_eq!(take_offer(&first, &mut w.ledger, &first.taker, 50), Ok(()));
    let other = w.take(2);
    assert!(w.has_account(&other.escrow));
    match w.ledger.account(&other.vault).unwrap().data {
        AccountData::Token { mint, owner, amount } => {
            assert!(mint == w.mint_a && owner == other.escrow);
            assert_eq!(amount, 40);
        },
        _ => panic!("no custody"),
    }
    assert_eq!(take_offer(&other, &mut w.ledger, &other.taker, 20), Ok(()));
    assert_eq!(w.balance(&other.taker_ata_a), 100);
    assert_eq!(w.balance(&other.maker_ata_b), 70);
    assert_eq!(w.lamports(&w.maker), START_LAMPORTS);
}

#[test]
fn offer_not_signed_by_maker_is_rejected() {
    let mut w = world();
    let ctx = w.make(1);
    let before = w.snapshot();
    assert_eq!(init_escrow(&ctx, &mut w.ledger, &w.taker.clone(), 1, 50), Err(EscrowError::MissingSignature));
    assert_eq!(w.snapshot(), before);
    assert_eq!(init_escrow(&ctx, &mut w.ledger, &ctx.maker, 1, 50), Ok(()));
    let before = w.snapshot();
    assert_eq!(deposit(&ctx, &mut w.ledger, &w.taker.clone(), 10), Err(EscrowError::MissingSignature));
    assert_eq!(w.snapshot(), before);
}

#[test]
fn take_not_signed_by_taker_is_rejected() {
    let mut w = world();
    open_offer(&mut w, 1, 50, 100);
    let ctx = w.take(1);
    let before = w.snapshot();
    assert_eq!(take_offer(&ctx, &mut w.ledger, &key(9), 50), Err(EscrowError::MissingSignature));
    assert_eq!(take_offer(&ctx, &mut w.ledger, &ctx.maker, 50), Err(EscrowError::MissingSignature));
    assert_eq!(w.snapshot(), before);
}

#[test]
fn naming_an_offer_as_taker_cannot_drain_it() {
    let mut w = world();
    open_offer(&mut w, 1, 50, 60);
    open_offer(&mut w, 2, 20, 40);
    let target = w.escrow(2);
    let target_vault = w.make(2).vault;
    let mut ctx = w.take(1);
    ctx.taker = target;
    ctx.mint_b = w.mint_a;
    ctx.taker_ata_a = w.ata(&target, &w.mint_a);
    ctx.taker_ata_b = w.ata(&target, &w.mint_a);
    ctx.maker_ata_b = w.ata(&w.maker, &w.mint_a);
    assert_eq!(take_offer(&ctx, &mut w.ledger, &target, 40), Err(EscrowError::MissingSignature));
    assert_eq!(w.balance(&target_vault), 40);
    assert!(w.has_account(&target));
}

#[test]
fn open_offer_creates_and_funds_in_one_step() {
    let mut w = world();
    let ctx = w.make(1);
    assert_eq!(ctx.open_offer(&mut w.ledger, &ctx.maker, 1, 50, 100), Ok(()));
    assert_eq!(w.balance(&ctx.vault), 100);
    assert_eq!(w.balance(&ctx.maker_ata_a), 0);
    assert!(w.has_account(&ctx.escrow));
}

#[test]
fn open_offer_beyond_balance_creates_nothing() {
    let mut w = world();
    let ctx = w.make(1);
    let before = w.snapshot();
    assert_eq!(ctx.open_offer(&mut w.ledger, &ctx.maker, 1, 50, 101), Err(EscrowError::InsufficientFunds));
    assert_eq!(w.snapshot(), before);
    assert!(!w.has_account(&ctx.escrow));
    assert!(!w.has_account(&ctx.vault));
    assert_eq!(w.lamports(&w.maker), START_LAMPORTS);
}

#[test]
fn take_offer_plan_pays_the_whole_custody_then_the_maker() {
    let w = world();
    let ctx = w.take(1);
    let plan = ctx.take_offer_plan(100, 10);
    assert_eq!(
        plan,
        vec![
            TokenStep::Transfer { from: ctx.vault, to: ctx.taker_ata_a, mint: ctx.mint_a, authority: ctx.escrow, amount: 100 },
            TokenStep::Close { account: ctx.vault, destination: ctx.maker, authority: ctx.escrow },
            TokenStep::Transfer { from: ctx.taker_ata_b, to: ctx.maker_ata_b, mint: ctx.mint_b, authority: ctx.taker, amount: 10 },
        ]
    );
}
