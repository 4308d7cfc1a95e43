use crate::key::Key;
use crate::state::Escrow;
use vstd::prelude::*;

verus! {

/// What an account holds.
#[derive(Clone, Copy, Debug, PartialEq, Eq)]
pub enum AccountData {
    /// A participant's system account: lamports only.
    Wallet,
    /// An asset type.
    Mint { decimals: u8 },
    /// A holding of `amount` units of `mint`, moved only with `owner`'s authority.
    Token { mint: Key, owner: Key, amount: u64 },
    /// An open offer.
    Record(Escrow),
}

/// An account of the ledger: its address, its lamport deposit, its data.
#[derive(Clone, Copy, Debug, PartialEq, Eq)]
pub struct Account {
    pub address: Key,
    pub lamports: u64,
    pub data: AccountData,
}

/// No two entries share an address.
pub open spec fn unique_addresses(s: Seq<Account>) -> bool {
    forall|i: int, j: int|
        0 <= i < s.len() && 0 <= j < s.len() && #[trigger] s[i].address@ == #[trigger] s[j].address@ ==> i == j
}

pub open spec fn holds_address(s: Seq<Account>, a: Seq<u8>) -> bool {
    exists|i: int| 0 <= i < s.len() && #[trigger] s[i].address@ == a
}

/// The accounts as a map from address to account.
pub open spec fn accounts_map(s: Seq<Account>) -> Map<Seq<u8>, Account> {
    Map::new(
        |a: Seq<u8>| holds_address(s, a),
        |a: Seq<u8>| s[choose|i: int| 0 <= i < s.len() && #[trigger] s[i].address@ == a],
    )
}

pub proof fn lemma_map_at(s: Seq<Account>, i: int)
    requires
        unique_addresses(s),
        0 <= i < s.len(),
    ensures
        accounts_map(s).contains_key(s[i].address@),
        accounts_map(s)[s[i].address@] == s[i],
{
    let a = s[i].address@;
    assert(holds_address(s, a));
    let j = choose|j: int| 0 <= j < s.len() && #[trigger] s[j].address@ == a;
    assert(j == i);
}

pub proof fn lemma_map_update(s: Seq<Account>, i: int, x: Account)
    requires
        unique_addresses(s),
        0 <= i < s.len(),
        x.address@ == s[i].address@,
    ensures
        unique_addresses(s.update(i, x)),
        accounts_map(s.update(i, x)) == accounts_map(s).insert(x.address@, x),
{
    let t = s.update(i, x);
    assert forall|j: int| 0 <= j < t.len() implies #[trigger] t[j].address@ == s[j].address@ by {}
    assert(unique_addresses(t)) by {
        assert forall|j: int, k: int|
            0 <= j < t.len() && 0 <= k < t.len() && #[trigger] t[j].address@ == #[trigger] t[k].address@ implies j == k by {
            assert(s[j].address@ == s[k].address@);
        }
    }
    let m1 = accounts_map(t);
    let m2 = accounts_map(s).insert(x.address@, x);
    assert forall|a: Seq<u8>| m1.contains_key(a) <==> m2.contains_key(a) by {
        if m2.contains_key(a) && a != x.address@ {
            let j = choose|j: int| 0 <= j < s.len() && #[trigger] s[j].address@ == a;
            assert(t[j].address@ == a);
        }
        if a == x.address@ {
            lemma_map_at(t, i);
        }
        if m1.contains_key(a) {
            let j = choose|j: int| 0 <= j < t.len() && #[trigger] t[j].address@ == a;
            assert(s[j].address@ == a);
        }
    }
    assert forall|a: Seq<u8>| m1.contains_key(a) implies m1[a] == m2[a] by {
        let j = choose|j: int| 0 <= j < t.len() && #[trigger] t[j].address@ == a;
        lemma_map_at(t, j);
        if j != i {
            lemma_map_at(s, j);
        }
    }
    assert(m1 =~= m2);
}

pub proof fn lemma_map_push(s: Seq<Account>, x: Account)
    requires
        unique_addresses(s),
        !accounts_map(s).contains_key(x.address@),
    ensures
        unique_addresses(s.push(x)),
        accounts_map(s.push(x)) == accounts_map(s).insert(x.address@, x),
{
    let t = s.push(x);
    let n = s.len() as int;
    assert forall|j: int| 0 <= j < n implies #[trigger] t[j] == s[j] by {}
    assert forall|j: int| 0 <= j < n implies #[trigger] s[j].address@ != x.address@ by {
        if s[j].address@ == x.address@ {
            assert(holds_address(s, x.address@));
        }
    }
    assert(unique_addresses(t)) by {
        assert forall|j: int, k: int|
            0 <= j < t.len() && 0 <= k < t.len() && #[trigger] t[j].address@ == #[trigger] t[k].address@ implies j == k by {
            if j < n && k < n {
                assert(s[j].address@ == s[k].address@);
            } else if j < n {
                assert(s[j].address@ != x.address@);
            } else if k < n {
                assert(s[k].address@ != x.address@);
            }
        }
    }
    let m1 = accounts_map(t);
    let m2 = accounts_map(s).insert(x.address@, x);
    assert forall|a: Seq<u8>| m1.contains_key(a) <==> m2.contains_key(a) by {
        if m2.contains_key(a) && a != x.address@ {
            let j = choose|j: int| 0 <= j < s.len() && #[trigger] s[j].address@ == a;
            assert(t[j].address@ == a);
        }
        if a == x.address@ {
            lemma_map_at(t, n);
        }
        if m1.contains_key(a) {
            let j = choose|j: int| 0 <= j < t.len() && #[trigger] t[j].address@ == a;
            if j < n {
                assert(s[j].address@ == a);
            }
        }
    }
    assert forall|a: Seq<u8>| m1.contains_key(a) implies m1[a] == m2[a] by {
        let j = choose|j: int| 0 <= j < t.len() && #[trigger] t[j].address@ == a;
        lemma_map_at(t, j);
        if j < n {
            lemma_map_at(s, j);
        }
    }
    assert(m1 =~= m2);
}

pub proof fn lemma_map_remove(s: Seq<Account>, i: int)
    requires
        unique_addresses(s),
        0 <= i < s.len(),
    ensures
        unique_addresses(s.remove(i)),
        accounts_map(s.remove(i)) == accounts_map(s).remove(s[i].address@),
{
    let t = s.remove(i);
    let r = s[i].address@;
    assert forall|j: int| 0 <= j < t.len() implies #[trigger] t[j] == s[if j < i { j } else { j + 1 }] by {}
    assert(unique_addresses(t)) by {
        assert forall|j: int, k: int|
            0 <= j < t.len() && 0 <= k < t.len() && #[trigger] t[j].address@ == #[trigger] t[k].address@ implies j == k by {
            let jj = if j < i { j } else { j + 1 };
            let kk = if k < i { k } else { k + 1 };
            assert(t[j] == s[jj]);
            assert(t[k] == s[kk]);
            assert(s[jj].address@ == s[kk].address@);
        }
    }
    let m1 = accounts_map(t);
    let m2 = accounts_map(s).remove(r);
    assert forall|a: Seq<u8>| m1.contains_key(a) <==> m2.contains_key(a) by {
        if m2.contains_key(a) {
            let j = choose|j: int| 0 <= j < s.len() && #[trigger] s[j].address@ == a;
            assert(j != i);
            let jj = if j < i { j } else { j - 1 };
            assert(t[jj] == s[j]);
            assert(t[jj].address@ == a);
        }
        if m1.contains_key(a) {
            let j = choose|j: int| 0 <= j < t.len() && #[trigger] t[j].address@ == a;
            let jj = if j < i { j } else { j + 1 };
            assert(t[j] == s[jj]);
            assert(s[jj].address@ == a);
            assert(jj != i);
        }
    }
    assert forall|a: Seq<u8>| m1.contains_key(a) implies m1[a] == m2[a] by {
        let j = choose|j: int| 0 <= j < t.len() && #[trigger] t[j].address@ == a;
        let jj = if j < i { j } else { j + 1 };
        assert(t[j] == s[jj]);
        lemma_map_at(t, j);
        lemma_map_at(s, jj);
    }
    assert(m1 =~= m2);
}

} // verus!
