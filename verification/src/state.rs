use vstd::prelude::*;

use crate::dup::Duplicate;
use crate::msg::{MetadataMsg, MetadataMsgView, Wallet, WalletView};

verus! {

/// The configuration of the sale.
#[derive(Clone, Debug, PartialEq)]
pub struct State {
    /// a counter that no handler changes
    pub count: u128,
    /// number of slots of the metadata pool that can be minted
    pub total_supply: u128,
    /// the address that may change the configuration
    pub admin: String,
    /// how many tokens a whitelisted buyer may hold after the private sale
    pub maximum_count: u128,
    pub public_price: u128,
    pub private_price: u128,
    /// the wallets among which every payment is split
    pub reward_wallet: Vec<Wallet>,
    /// whether the public sale is open
    pub public_mint: bool,
    /// whether the private (whitelist) sale is open
    pub private_mint: bool,
    pub nft_address: String,
    pub nft_contract_hash: String,
    pub token_address: String,
    pub token_contract_hash: String,
    /// one flag per slot of the metadata pool: `true` while the slot is not minted
    pub check_minted: Vec<bool>,
}

/// The contents of a [`State`].
#[verifier::ext_equal]
pub struct StateView {
    pub count: u128,
    pub total_supply: u128,
    pub admin: Seq<char>,
    pub maximum_count: u128,
    pub public_price: u128,
    pub private_price: u128,
    pub reward_wallet: Seq<WalletView>,
    pub public_mint: bool,
    pub private_mint: bool,
    pub nft_address: Seq<char>,
    pub nft_contract_hash: Seq<char>,
    pub token_address: Seq<char>,
    pub token_contract_hash: Seq<char>,
    pub check_minted: Seq<bool>,
}

impl DeepView for State {
    type V = StateView;

    open spec fn deep_view(&self) -> StateView {
        StateView {
            count: self.count,
            total_supply: self.total_supply,
            admin: self.admin@,
            maximum_count: self.maximum_count,
            public_price: self.public_price,
            private_price: self.private_price,
            reward_wallet: self.reward_wallet.deep_view(),
            public_mint: self.public_mint,
            private_mint: self.private_mint,
            nft_address: self.nft_address@,
            nft_contract_hash: self.nft_contract_hash@,
            token_address: self.token_address@,
            token_contract_hash: self.token_contract_hash@,
            check_minted: self.check_minted@,
        }
    }
}

impl Duplicate for State {
    fn duplicate(&self) -> (r: State) {
        let check_minted = self.check_minted.duplicate();
        proof {
            let a = check_minted.deep_view();
            let b = self.check_minted.deep_view();
            assert(a == b);
            assert(a.len() == check_minted@.len());
            assert(b.len() == self.check_minted@.len());
            assert forall|i: int| 0 <= i < check_minted@.len() implies check_minted@[i]
                == self.check_minted@[i] by {
                assert(a[i] == check_minted@[i]);
                assert(b[i] == self.check_minted@[i]);
            }
            assert(check_minted@ =~= self.check_minted@);
        }
        State {
            count: self.count,
            total_supply: self.total_supply,
            admin: self.admin.duplicate(),
            maximum_count: self.maximum_count,
            public_price: self.public_price,
            private_price: self.private_price,
            reward_wallet: self.reward_wallet.duplicate(),
            public_mint: self.public_mint,
            private_mint: self.private_mint,
            nft_address: self.nft_address.duplicate(),
            nft_contract_hash: self.nft_contract_hash.duplicate(),
            token_address: self.token_address.duplicate(),
            token_contract_hash: self.token_contract_hash.duplicate(),
            check_minted,
        }
    }
}

/// The token ids that one buyer has minted.
#[derive(Clone, Debug, PartialEq)]
pub struct UserTokens {
    pub address: String,
    pub tokens: Vec<String>,
}

/// The storage of the contract.
///
/// Each part is `None` until it is first written, as a key of the chain's
/// key-value store is absent until then.  `users` lists the token ids of each
/// buyer; where an address occurs more than once, its last entry counts.
#[derive(Clone, Debug, PartialEq)]
pub struct Store {
    /// the configuration
    pub config: Option<State>,
    /// the whitelist of the private sale
    pub members: Option<Vec<String>>,
    /// the metadata pool, one entry per slot
    pub metadata: Option<Vec<MetadataMsg>>,
    /// the token ids minted by each buyer
    pub users: Vec<UserTokens>,
}

/// The contents of a [`Store`].
#[verifier::ext_equal]
pub struct StoreView {
    pub config: Option<StateView>,
    pub members: Option<Seq<Seq<char>>>,
    pub metadata: Option<Seq<MetadataMsgView>>,
    /// the token ids of each buyer that has minted, by address
    pub users: Map<Seq<char>, Seq<Seq<char>>>,
}

/// The token ids recorded for address `a`: those of its last entry.
pub open spec fn user_lookup(users: Seq<UserTokens>, a: Seq<char>) -> Option<Seq<Seq<char>>>
    decreases users.len(),
{
    if users.len() == 0 {
        None
    } else if users.last().address@ == a {
        Some(users.last().tokens.deep_view())
    } else {
        user_lookup(users.drop_last(), a)
    }
}

/// The token ids of every buyer, by address.
pub open spec fn users_map(users: Seq<UserTokens>) -> Map<Seq<char>, Seq<Seq<char>>> {
    Map::new(|a: Seq<char>| user_lookup(users, a) is Some, |a: Seq<char>| user_lookup(users, a)->Some_0)
}

impl View for Store {
    type V = StoreView;

    open spec fn view(&self) -> StoreView {
        StoreView {
            config: self.config.deep_view(),
            members: self.members.deep_view(),
            metadata: self.metadata.deep_view(),
            users: users_map(self.users@),
        }
    }
}

/// Where no entry at index `j` or later holds `a`, only the entries before `j` decide.
proof fn lemma_lookup_prefix(users: Seq<UserTokens>, j: int, a: Seq<char>)
    requires
        0 <= j <= users.len(),
        forall|k: int| j <= k < users.len() ==> (#[trigger] users[k]).address@ != a,
    ensures
        user_lookup(users, a) == user_lookup(users.take(j), a),
    decreases users.len() - j,
{
    if j < users.len() {
        assert(users.drop_last() =~= users.take(users.len() - 1));
        lemma_lookup_prefix(users.drop_last(), j, a);
        assert(users.drop_last().take(j) =~= users.take(j));
    } else {
        assert(users.take(j) =~= users);
    }
}

/// Replacing the tokens of the entry at `j`, the last entry of its address,
/// changes what that address maps to and nothing else.
proof fn lemma_lookup_update(users: Seq<UserTokens>, j: int, e: UserTokens, a: Seq<char>)
    requires
        0 <= j < users.len(),
        e.address@ == users[j].address@,
        forall|k: int| j < k < users.len() ==> (#[trigger] users[k]).address@ != e.address@,
    ensures
        user_lookup(users.update(j, e), a) == if a == e.address@ {
            Some(e.tokens.deep_view())
        } else {
            user_lookup(users, a)
        },
    decreases users.len(),
{
    let u2 = users.update(j, e);
    if j == users.len() - 1 {
        assert(u2.drop_last() =~= users.drop_last());
    } else {
        assert(u2.drop_last() =~= users.drop_last().update(j, e));
        lemma_lookup_update(users.drop_last(), j, e, a);
    }
}

impl Store {
    /// An empty storage, before the contract is instantiated.
    pub fn new() -> (s: Store)
        ensures
            s@.config is None,
            s@.members is None,
            s@.metadata is None,
            s@.users == Map::<Seq<char>, Seq<Seq<char>>>::empty(),
    {
        let s = Store { config: None, members: None, metadata: None, users: Vec::new() };
        assert(s@.users =~= Map::<Seq<char>, Seq<Seq<char>>>::empty());
        s
    }

}

/// The token ids recorded for `user`, if any.
pub fn read_user_info(storage: &Store, user: &String) -> (r: Option<Vec<String>>)
    ensures
        r.deep_view() == (if storage@.users.contains_key(user@) {
            Some(storage@.users[user@])
        } else {
            None
        }),
{
    let mut j: usize = storage.users.len();
    while j > 0
        invariant
            j <= storage.users@.len(),
            forall|k: int| j <= k < storage.users@.len() ==> (#[trigger] storage.users@[k]).address@
                != user@,
        decreases j,
    {
        if storage.users[j - 1].address == *user {
            proof {
                lemma_lookup_prefix(storage.users@, j as int, user@);
                assert(storage.users@.take(j as int).last() == storage.users@[j - 1]);
            }
            return Some(storage.users[j - 1].tokens.duplicate());
        }
        j = j - 1;
    }
    proof {
        lemma_lookup_prefix(storage.users@, 0, user@);
    }
    None
}

/// Records `user_info` as the token ids of `user`.
pub fn store_user_info(storage: &mut Store, user: &String, user_info: Vec<String>)
    ensures
        final(storage)@ == (StoreView {
            users: old(storage)@.users.insert(user@, user_info.deep_view()),
            ..old(storage)@
        }),
{
    let ghost old_users = storage.users@;
    let entry = UserTokens { address: user.duplicate(), tokens: user_info };
    let mut j: usize = storage.users.len();
    while j > 0
        invariant
            storage.users@ == old_users,
            old_users == old(storage).users@,
            entry.address@ == user@,
            entry.tokens == user_info,
            storage.config == old(storage).config,
            storage.members == old(storage).members,
            storage.metadata == old(storage).metadata,
            j <= old_users.len(),
            forall|k: int| j <= k < old_users.len() ==> (#[trigger] old_users[k]).address@ != user@,
        decreases j,
    {
        if storage.users[j - 1].address == *user {
            assert(entry.address@ == old_users[j - 1].address@);
            storage.users.set(j - 1, entry);
            proof {
                assert forall|a: Seq<char>| true implies user_lookup(storage.users@, a) == (if a
                    == user@ {
                    Some(user_info.deep_view())
                } else {
                    user_lookup(old_users, a)
                }) by {
                    lemma_lookup_update(old_users, j - 1, entry, a);
                }
                assert(storage@.users =~= old(storage)@.users.insert(user@, user_info.deep_view()));
            }
            return;
        }
        j = j - 1;
    }
    storage.users.push(entry);
    proof {
        assert forall|a: Seq<char>| true implies user_lookup(storage.users@, a) == (if a
            == user@ {
            Some(user_info.deep_view())
        } else {
            user_lookup(old_users, a)
        }) by {
            assert(storage.users@.drop_last() =~= old_users);
        }
        assert(storage@.users =~= old(storage)@.users.insert(user@, user_info.deep_view()));
    }
}

} // verus!
