use crate::accounts::{Account, AccountData};
use crate::error::EscrowError;
use crate::instructions::{
    deposit_spec, init_escrow_spec, is_wallet, open_offer_spec, signed_by, signs_for, take_offer_checks, take_offer_spec,
    MakeOffer, TakeOffer,
};
use crate::derivation::{associated_address_of, escrow_seeds_of, found_program_address};
use crate::key::Key;
use crate::ledger::{
    close_record_spec, close_token_spec, create_spec, ensure_token_spec, reclaim_spec, step_follows,
    token_balance, transfer_spec, AccountMap, Config,
};
use crate::state::Escrow;
use vstd::prelude::*;

verus! {

/// Opening an offer leaves the record and its custody account both in being,
/// the custody account holding nothing of the record's `mint_a` under the
/// record's authority and the record's stored seeds re-deriving its address,
/// or leaves neither.
pub proof fn lemma_open_offer_atomic(
    c: Config,
    before: AccountMap,
    after: AccountMap,
    r: Result<(), EscrowError>,
    ctx: MakeOffer,
    signer: Key,
    seed: u64,
    receive: u64,
)
    requires
        !before.contains_key(ctx.escrow@),
        !before.contains_key(ctx.vault@),
        step_follows(r, before, after, init_escrow_spec(c, before, ctx, signer, seed, receive)),
    ensures
        after.contains_key(ctx.escrow@) <==> after.contains_key(ctx.vault@),
        after.contains_key(ctx.escrow@) ==> {
            &&& r is Ok
            &&& after[ctx.escrow@].data matches AccountData::Record(rec)
            &&& rec.mint_a == ctx.mint_a && rec.maker == ctx.maker && rec.seed == seed && rec.receive == receive
            &&& signs_for(c, rec, ctx.escrow)
            &&& after[ctx.vault@].data == (AccountData::Token { mint: ctx.mint_a, owner: ctx.escrow, amount: 0 })
        },
{
}

/// An offer opened and then funded with `amount` has its record with the terms
/// given and a custody account of the record's `mint_a` that holds exactly `amount`.
pub proof fn lemma_open_offer_funded(
    c: Config,
    m0: AccountMap,
    m1: AccountMap,
    m2: AccountMap,
    ctx: MakeOffer,
    signer: Key,
    seed: u64,
    receive: u64,
    amount: u64,
)
    requires
        !m0.contains_key(ctx.vault@),
        init_escrow_spec(c, m0, ctx, signer, seed, receive) == Ok::<AccountMap, EscrowError>(m1),
        deposit_spec(c, m1, ctx, signer, amount) == Ok::<AccountMap, EscrowError>(m2),
    ensures
        m2.contains_key(ctx.escrow@),
        m2[ctx.escrow@].data matches AccountData::Record(rec) && rec.mint_a == ctx.mint_a && rec.receive == receive,
        m2.contains_key(ctx.vault@),
        m2[ctx.vault@].data == (AccountData::Token { mint: ctx.mint_a, owner: ctx.escrow, amount }),
{
    assert(m1[ctx.vault@].data == (AccountData::Token { mint: ctx.mint_a, owner: ctx.escrow, amount: 0 }));
    assert(ctx.maker_ata_a@ != ctx.vault@);
}

/// Opening an offer, or funding one, that the maker's wallet did not sign, and
/// taking an offer that the taker's wallet did not sign, are rejected and change
/// nothing.
pub proof fn lemma_unsigned_rejected(
    c: Config,
    before: AccountMap,
    make: MakeOffer,
    take: TakeOffer,
    signer: Key,
    seed: u64,
    receive: u64,
    amount: u64,
    r: Result<(), EscrowError>,
    after: AccountMap,
)
    requires
        step_follows(r, before, after, init_escrow_spec(c, before, make, signer, seed, receive))
            || step_follows(r, before, after, deposit_spec(c, before, make, signer, amount))
            || step_follows(r, before, after, open_offer_spec(c, before, make, signer, seed, receive, amount)),
        !signed_by(before, signer, make.maker),
    ensures
        r == Err::<(), EscrowError>(EscrowError::MissingSignature),
        after == before,
{
}

/// Taking an offer that the taker's wallet did not sign is rejected and changes nothing.
pub proof fn lemma_unsigned_take_rejected(
    c: Config,
    before: AccountMap,
    ctx: TakeOffer,
    signer: Key,
    amount: u64,
    r: Result<(), EscrowError>,
    after: AccountMap,
)
    requires
        step_follows(r, before, after, take_offer_spec(c, before, ctx, signer, amount)),
        !signed_by(before, signer, ctx.taker),
    ensures
        r == Err::<(), EscrowError>(EscrowError::MissingSignature),
        after == before,
{
}

/// Opening and funding an offer in one step leaves the record with the terms
/// given and its custody account holding exactly `amount` of `mint_a`, or
/// changes nothing, so that where neither existed before, neither exists.
pub proof fn lemma_open_offer_all_or_nothing(
    c: Config,
    before: AccountMap,
    after: AccountMap,
    r: Result<(), EscrowError>,
    ctx: MakeOffer,
    signer: Key,
    seed: u64,
    receive: u64,
    amount: u64,
)
    requires
        !before.contains_key(ctx.escrow@),
        !before.contains_key(ctx.vault@),
        step_follows(r, before, after, open_offer_spec(c, before, ctx, signer, seed, receive, amount)),
    ensures
        r is Err ==> after == before && !after.contains_key(ctx.escrow@) && !after.contains_key(ctx.vault@),
        r is Ok ==> {
            &&& after.contains_key(ctx.escrow@)
            &&& after[ctx.escrow@].data matches AccountData::Record(rec)
            &&& rec.mint_a == ctx.mint_a && rec.maker == ctx.maker && rec.seed == seed && rec.receive == receive
            &&& signs_for(c, rec, ctx.escrow)
            &&& after.contains_key(ctx.vault@)
            &&& after[ctx.vault@].data == (AccountData::Token { mint: ctx.mint_a, owner: ctx.escrow, amount })
        },
{
    if r is Ok {
        let m1 = init_escrow_spec(c, before, ctx, signer, seed, receive)->Ok_0;
        lemma_open_offer_funded(c, before, m1, after, ctx, signer, seed, receive, amount);
        lemma_open_offer_atomic(c, before, m1, Ok(()), ctx, signer, seed, receive);
    }
}

/// A checked transfer lowers the balance of an account only where the authority
/// it is given is that account's owner. The instructions give as authority
/// either the key that signed the call or an offer address whose stored seeds
/// re-derive it.
pub proof fn lemma_transfer_needs_owner(m: AccountMap, from: Key, to: Key, mint: Key, authority: Key, amount: u64, a: Seq<u8>)
    requires
        transfer_spec(m, from, to, mint, authority, amount) is Ok,
        token_balance(transfer_spec(m, from, to, mint, authority, amount)->Ok_0, a) < token_balance(m, a),
    ensures
        a == from@,
        m[a].data matches AccountData::Token { owner, .. } && owner@ == authority@,
{
}

/// Taking an offer, the one path by which custody funds leave, succeeds only
/// where the record's stored maker, seed and bump re-derive the record's address.
pub proof fn lemma_take_offer_signs_for(c: Config, m: AccountMap, ctx: TakeOffer,
    signer: Key, amount: u64)
    requires
        take_offer_spec(c, m, ctx, signer, amount) is Ok,
    ensures
        m.contains_key(ctx.escrow@),
        m[ctx.escrow@].data matches AccountData::Record(rec) && signs_for(c, rec, ctx.escrow),
{
}

/// Taking an offer raises the taker's `mint_a` balance by exactly the custody
/// balance before the call, and leaves neither custody account nor record.
/// This holds where the taker's `mint_a` holding is neither of the `mint_b`
/// holdings, which the two mints being the same would make it.
pub proof fn lemma_exact_payout(c: Config, m: AccountMap, ctx: TakeOffer,
    signer: Key, amount: u64)
    requires
        take_offer_spec(c, m, ctx, signer, amount) is Ok,
        ctx.taker_ata_a@ != ctx.taker_ata_b@,
        ctx.taker_ata_a@ != ctx.maker_ata_b@,
    ensures
        token_balance(take_offer_spec(c, m, ctx, signer, amount)->Ok_0, ctx.taker_ata_a@)
            == token_balance(m, ctx.taker_ata_a@) + token_balance(m, ctx.vault@),
        !take_offer_spec(c, m, ctx, signer, amount)->Ok_0.contains_key(ctx.vault@),
        !take_offer_spec(c, m, ctx, signer, amount)->Ok_0.contains_key(ctx.escrow@),
{
    let m1 = ensure_token_spec(m, c.token_rent, ctx.taker, ctx.taker_ata_a, ctx.taker, ctx.mint_a)->Ok_0;
    let m2 = ensure_token_spec(m1, c.token_rent, ctx.taker, ctx.maker_ata_b, ctx.maker, ctx.mint_b)->Ok_0;
    let held = token_balance(m2, ctx.vault@) as u64;
    let m3 = transfer_spec(m2, ctx.vault, ctx.taker_ata_a, ctx.mint_a, ctx.escrow, held)->Ok_0;
    let m4 = close_token_spec(m3, ctx.vault, ctx.maker, ctx.escrow)->Ok_0;
    let m5 = transfer_spec(m4, ctx.taker_ata_b, ctx.maker_ata_b, ctx.mint_b, ctx.taker, amount)->Ok_0;
    let m6 = close_record_spec(m5, ctx.escrow, ctx.maker)->Ok_0;
    assert(take_offer_spec(c, m, ctx, signer, amount) == Ok::<AccountMap, EscrowError>(m6));
    assert(token_balance(m1, ctx.taker_ata_a@) == token_balance(m, ctx.taker_ata_a@));
    assert(token_balance(m2, ctx.taker_ata_a@) == token_balance(m, ctx.taker_ata_a@));
    assert(token_balance(m2, ctx.vault@) == token_balance(m, ctx.vault@));
    assert(token_balance(m3, ctx.taker_ata_a@) == token_balance(m, ctx.taker_ata_a@) + token_balance(m, ctx.vault@));
    assert(token_balance(m4, ctx.taker_ata_a@) == token_balance(m3, ctx.taker_ata_a@));
    assert(token_balance(m5, ctx.taker_ata_a@) == token_balance(m4, ctx.taker_ata_a@));
}

/// Taking an offer whose record names another maker, `mint_a` or `mint_b` than
/// those supplied is rejected and changes nothing.
pub proof fn lemma_binding(
    c: Config,
    before: AccountMap,
    after: AccountMap,
    r: Result<(), EscrowError>,
    ctx: TakeOffer,
    signer: Key,
    amount: u64,
)
    requires
        before.contains_key(ctx.escrow@),
        before[ctx.escrow@].data matches AccountData::Record(rec)
            && (rec.maker@ != ctx.maker@ || rec.mint_a@ != ctx.mint_a@ || rec.mint_b@ != ctx.mint_b@),
        step_follows(r, before, after, take_offer_spec(c, before, ctx, signer, amount)),
    ensures
        r is Err,
        after == before,
{
}

/// Once an offer is taken, taking it again, with any accounts and amount that
/// name the same record address, fails for want of the record and changes nothing.
pub proof fn lemma_one_shot(
    c: Config,
    m0: AccountMap,
    m1: AccountMap,
    ctx: TakeOffer,
    signer: Key,
    amount: u64,
    again: TakeOffer,
    signer_again: Key,
    amount_again: u64,
    after: AccountMap,
    r: Result<(), EscrowError>,
)
    requires
        take_offer_spec(c, m0, ctx, signer, amount) == Ok::<AccountMap, EscrowError>(m1),
        again.escrow@ == ctx.escrow@,
        step_follows(r, m1, after, take_offer_spec(c, m1, again, signer_again, amount_again)),
    ensures
        r is Err,
        after == m1,
        signed_by(m1, signer_again, again.taker) ==> r == Err::<(), EscrowError>(EscrowError::AccountNotFound),
{
    lemma_exact_payout_record_gone(c, m0, ctx, signer, amount);
}

proof fn lemma_exact_payout_record_gone(c: Config, m: AccountMap, ctx: TakeOffer,
    signer: Key, amount: u64)
    requires
        take_offer_spec(c, m, ctx, signer, amount) is Ok,
    ensures
        !take_offer_spec(c, m, ctx, signer, amount)->Ok_0.contains_key(ctx.escrow@),
{
    let m1 = ensure_token_spec(m, c.token_rent, ctx.taker, ctx.taker_ata_a, ctx.taker, ctx.mint_a)->Ok_0;
    let m2 = ensure_token_spec(m1, c.token_rent, ctx.taker, ctx.maker_ata_b, ctx.maker, ctx.mint_b)->Ok_0;
    let held = token_balance(m2, ctx.vault@) as u64;
    let m3 = transfer_spec(m2, ctx.vault, ctx.taker_ata_a, ctx.mint_a, ctx.escrow, held)->Ok_0;
    let m4 = close_token_spec(m3, ctx.vault, ctx.maker, ctx.escrow)->Ok_0;
    let m5 = transfer_spec(m4, ctx.taker_ata_b, ctx.maker_ata_b, ctx.mint_b, ctx.taker, amount)->Ok_0;
    assert(take_offer_spec(c, m, ctx, signer, amount) == close_record_spec(m5, ctx.escrow, ctx.maker));
}


/// `acc` is the custody account of the record `rec` at `e`: a holding of its
/// `mint_a` owned by `e`.
pub open spec fn is_custody_of(acc: Account, e: Seq<u8>, rec: Escrow) -> bool {
    match acc.data {
        AccountData::Token { mint, owner, .. } => mint == rec.mint_a && owner@ == e,
        _ => false,
    }
}

/// The record at `e` has its custody account at its associated address.
pub open spec fn backed(c: Config, m: AccountMap, e: Seq<u8>) -> bool {
    match m[e].data {
        AccountData::Record(rec) => match associated_address_of(c.ata_program@, c.token_program@, e, rec.mint_a@) {
            Some(v) => m.contains_key(v) && is_custody_of(m[v], e, rec),
            None => false,
        },
        _ => true,
    }
}

/// Every record but the one at `x` has its custody account.
pub open spec fn offers_backed_except(c: Config, m: AccountMap, x: Seq<u8>) -> bool {
    forall|e: Seq<u8>| #[trigger] m.contains_key(e) && e != x ==> backed(c, m, e)
}

/// Every record has its custody account.
pub open spec fn offers_backed(c: Config, m: AccountMap) -> bool {
    forall|e: Seq<u8>| #[trigger] m.contains_key(e) ==> backed(c, m, e)
}

proof fn lemma_transfer_keeps(c: Config, m: AccountMap, from: Key, to: Key, mint: Key, authority: Key, amount: u64, x: Seq<u8>)
    requires
        offers_backed_except(c, m, x),
        transfer_spec(m, from, to, mint, authority, amount) is Ok,
    ensures
        offers_backed_except(c, transfer_spec(m, from, to, mint, authority, amount)->Ok_0, x),
{
    let m2 = transfer_spec(m, from, to, mint, authority, amount)->Ok_0;
    assert forall|e: Seq<u8>| #[trigger] m2.contains_key(e) && e != x implies backed(c, m2, e) by {
        assert(m.contains_key(e) && backed(c, m, e));
    }
}

proof fn lemma_create_keeps(c: Config, m: AccountMap, payer: Key, address: Key, rent: u64, data: AccountData, x: Seq<u8>)
    requires
        offers_backed_except(c, m, x),
        create_spec(m, payer, address, rent, data) is Ok,
        !(data is Record) || address@ == x,
    ensures
        offers_backed_except(c, create_spec(m, payer, address, rent, data)->Ok_0, x),
{
    let m2 = create_spec(m, payer, address, rent, data)->Ok_0;
    assert forall|e: Seq<u8>| #[trigger] m2.contains_key(e) && e != x implies backed(c, m2, e) by {
        if e != address@ {
            assert(m.contains_key(e) && backed(c, m, e));
        }
    }
}

proof fn lemma_ensure_keeps(c: Config, m: AccountMap, rent: u64, payer: Key, address: Key, owner: Key, mint: Key, x: Seq<u8>)
    requires
        offers_backed_except(c, m, x),
        ensure_token_spec(m, rent, payer, address, owner, mint) is Ok,
    ensures
        offers_backed_except(c, ensure_token_spec(m, rent, payer, address, owner, mint)->Ok_0, x),
{
    if !m.contains_key(address@) {
        lemma_create_keeps(c, m, payer, address, rent, AccountData::Token { mint, owner, amount: 0 }, x);
    }
}

proof fn lemma_reclaim_keeps(c: Config, m: AccountMap, account: Key, destination: Key, x: Seq<u8>)
    requires
        offers_backed_except(c, m, x),
        reclaim_spec(m, account, destination) is Ok,
        m.contains_key(account@),
        m.contains_key(destination@),
        (account@ == x && m[x].data is Record) || (m[account@].data matches AccountData::Token { owner, .. } && owner@ == x),
    ensures
        offers_backed_except(c, reclaim_spec(m, account, destination)->Ok_0, x),
{
    let m2 = reclaim_spec(m, account, destination)->Ok_0;
    assert forall|e: Seq<u8>| #[trigger] m2.contains_key(e) && e != x implies backed(c, m2, e) by {
        assert(m.contains_key(e) && backed(c, m, e));
        assert(m2[e].data == m[e].data);
        if let AccountData::Record(rec) = m[e].data {
            let v = associated_address_of(c.ata_program@, c.token_program@, e, rec.mint_a@)->Some_0;
            assert(v != account@);
            assert(m2.contains_key(v));
            assert(m2[v].data == m[v].data);
        }
    }
}

/// Opening an offer keeps every record backed by its custody account.
pub proof fn lemma_init_escrow_keeps_offers_backed(c: Config, m: AccountMap, ctx: MakeOffer,
    signer: Key, seed: u64, receive: u64)
    requires
        offers_backed(c, m),
        init_escrow_spec(c, m, ctx, signer, seed, receive) is Ok,
    ensures
        offers_backed(c, init_escrow_spec(c, m, ctx, signer, seed, receive)->Ok_0),
{
    let bump = found_program_address(escrow_seeds_of(ctx.maker@, seed), c.program_id@)->Some_0.1;
    let rec = Escrow { seed, maker: ctx.maker, mint_a: ctx.mint_a, mint_b: ctx.mint_b, receive, bump };
    let x = ctx.escrow@;
    assert(offers_backed_except(c, m, x));
    lemma_create_keeps(c, m, ctx.maker, ctx.escrow, c.record_rent, AccountData::Record(rec), x);
    let m1 = create_spec(m, ctx.maker, ctx.escrow, c.record_rent, AccountData::Record(rec))->Ok_0;
    let data = AccountData::Token { mint: ctx.mint_a, owner: ctx.escrow, amount: 0 };
    lemma_create_keeps(c, m1, ctx.maker, ctx.vault, c.token_rent, data, x);
    let m2 = create_spec(m1, ctx.maker, ctx.vault, c.token_rent, data)->Ok_0;
    assert(init_escrow_spec(c, m, ctx, signer, seed, receive) == Ok::<AccountMap, EscrowError>(m2));
    assert(backed(c, m2, x));
}

/// Funding an offer keeps every record backed by its custody account.
pub proof fn lemma_deposit_keeps_offers_backed(c: Config, m: AccountMap, ctx: MakeOffer,
    signer: Key, amount: u64)
    requires
        offers_backed(c, m),
        deposit_spec(c, m, ctx, signer, amount) is Ok,
    ensures
        offers_backed(c, deposit_spec(c, m, ctx, signer, amount)->Ok_0),
{
    let x = ctx.escrow@;
    lemma_transfer_keeps(c, m, ctx.maker_ata_a, ctx.vault, ctx.mint_a, ctx.maker, amount, x);
    let m2 = deposit_spec(c, m, ctx, signer, amount)->Ok_0;
    assert(m.contains_key(x) && backed(c, m, x));
    assert(backed(c, m2, x));
}

/// Taking an offer keeps every remaining record backed by its custody account.
pub proof fn lemma_take_offer_keeps_offers_backed(c: Config, m: AccountMap, ctx: TakeOffer,
    signer: Key, amount: u64)
    requires
        offers_backed(c, m),
        take_offer_spec(c, m, ctx, signer, amount) is Ok,
    ensures
        offers_backed(c, take_offer_spec(c, m, ctx, signer, amount)->Ok_0),
{
    let x = ctx.escrow@;
    let m1 = ensure_token_spec(m, c.token_rent, ctx.taker, ctx.taker_ata_a, ctx.taker, ctx.mint_a)->Ok_0;
    let m2 = ensure_token_spec(m1, c.token_rent, ctx.taker, ctx.maker_ata_b, ctx.maker, ctx.mint_b)->Ok_0;
    let held = token_balance(m2, ctx.vault@) as u64;
    let m3 = transfer_spec(m2, ctx.vault, ctx.taker_ata_a, ctx.mint_a, ctx.escrow, held)->Ok_0;
    let m4 = close_token_spec(m3, ctx.vault, ctx.maker, ctx.escrow)->Ok_0;
    let m5 = transfer_spec(m4, ctx.taker_ata_b, ctx.maker_ata_b, ctx.mint_b, ctx.taker, amount)->Ok_0;
    let m6 = close_record_spec(m5, ctx.escrow, ctx.maker)->Ok_0;
    assert(take_offer_spec(c, m, ctx, signer, amount) == Ok::<AccountMap, EscrowError>(m6));
    lemma_ensure_keeps(c, m, c.token_rent, ctx.taker, ctx.taker_ata_a, ctx.taker, ctx.mint_a, x);
    lemma_ensure_keeps(c, m1, c.token_rent, ctx.taker, ctx.maker_ata_b, ctx.maker, ctx.mint_b, x);
    lemma_transfer_keeps(c, m2, ctx.vault, ctx.taker_ata_a, ctx.mint_a, ctx.escrow, held, x);
    lemma_reclaim_keeps(c, m3, ctx.vault, ctx.maker, x);
    lemma_transfer_keeps(c, m4, ctx.taker_ata_b, ctx.maker_ata_b, ctx.mint_b, ctx.taker, amount, x);
    lemma_reclaim_keeps(c, m5, ctx.escrow, ctx.maker, x);
    assert forall|e: Seq<u8>| #[trigger] m6.contains_key(e) implies backed(c, m6, e) by {
        assert(e != x);
    }
}


/// Taking one offer leaves every other offer's record and custody account as
/// they were: the signer and the maker are wallets, and no account of another
/// offer is a wallet's or the taken offer's.
pub proof fn lemma_take_offer_spares_other_offers(c: Config, m: AccountMap, ctx: TakeOffer, signer: Key, amount: u64, e: Seq<u8>)
    requires
        offers_backed(c, m),
        take_offer_spec(c, m, ctx, signer, amount) is Ok,
        e != ctx.escrow@,
        m.contains_key(e),
        m[e].data is Record,
    ensures
        ({
            let after = take_offer_spec(c, m, ctx, signer, amount)->Ok_0;
            let v = associated_address_of(c.ata_program@, c.token_program@, e, (m[e].data->Record_0).mint_a@)->Some_0;
            &&& after.contains_key(e) && after[e] == m[e]
            &&& after.contains_key(v) && after[v] == m[v]
        }),
{
    let rec = m[e].data->Record_0;
    let v = associated_address_of(c.ata_program@, c.token_program@, e, rec.mint_a@)->Some_0;
    assert(backed(c, m, e));
    assert(m.contains_key(v) && is_custody_of(m[v], e, rec));
    assert(take_offer_checks(c, m, ctx, signer) is Ok);
    assert(signed_by(m, signer, ctx.taker));
    assert(is_wallet(m, ctx.maker));
    assert(ctx.taker@ != e && ctx.taker@ != v);
    assert(ctx.maker@ != e && ctx.maker@ != v);
    assert(m[ctx.escrow@].data is Record);
    assert(ctx.escrow@ != v);
    let m1 = ensure_token_spec(m, c.token_rent, ctx.taker, ctx.taker_ata_a, ctx.taker, ctx.mint_a)->Ok_0;
    assert(ctx.taker_ata_a@ != v && ctx.taker_ata_a@ != e);
    assert(m1.contains_key(e) && m1[e] == m[e] && m1.contains_key(v) && m1[v] == m[v]);
    assert(m1.contains_key(ctx.maker@) && m1[ctx.maker@].data is Wallet);
    let m2 = ensure_token_spec(m1, c.token_rent, ctx.taker, ctx.maker_ata_b, ctx.maker, ctx.mint_b)->Ok_0;
    assert(ctx.maker_ata_b@ != v && ctx.maker_ata_b@ != e);
    assert(m2.contains_key(e) && m2[e] == m[e] && m2.contains_key(v) && m2[v] == m[v]);
    let held = token_balance(m2, ctx.vault@) as u64;
    let m3 = transfer_spec(m2, ctx.vault, ctx.taker_ata_a, ctx.mint_a, ctx.escrow, held)->Ok_0;
    assert(ctx.vault@ != v && ctx.vault@ != e);
    assert(m3.contains_key(e) && m3[e] == m[e] && m3.contains_key(v) && m3[v] == m[v]);
    let m4 = close_token_spec(m3, ctx.vault, ctx.maker, ctx.escrow)->Ok_0;
    assert(m4.contains_key(e) && m4[e] == m[e] && m4.contains_key(v) && m4[v] == m[v]);
    let m5 = transfer_spec(m4, ctx.taker_ata_b, ctx.maker_ata_b, ctx.mint_b, ctx.taker, amount)->Ok_0;
    assert(ctx.taker_ata_b@ != v && ctx.taker_ata_b@ != e);
    assert(m5.contains_key(e) && m5[e] == m[e] && m5.contains_key(v) && m5[v] == m[v]);
    let m6 = close_record_spec(m5, ctx.escrow, ctx.maker)->Ok_0;
    assert(take_offer_spec(c, m, ctx, signer, amount) == Ok::<AccountMap, EscrowError>(m6));
    assert(m6.contains_key(e) && m6[e] == m[e] && m6.contains_key(v) && m6[v] == m[v]);
}

} // verus!
