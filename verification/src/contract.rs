use rand::SeedableRng;
use vstd::prelude::*;

use crate::decimal::{share_of, Decimal, DECIMAL_FRACTIONAL};
use crate::dup::Duplicate;
use crate::env::{Env, HandleResponse, InitResponse, OutMsg};
use crate::error::{ContractError, StoredItem};
use crate::msg::{
    HandleMsg, InitMsg, MetadataMsg, MetadataMsgView, QueryAnswer, QueryMsg, Wallet, WalletView,
};
use crate::package::{ExecuteMsg, Extension, Metadata};
use crate::state::{read_user_info, store_user_info, State, StateView, Store, StoreView};

verus! {

/// Block size to which the messages sent to other contracts are padded.
pub const RESPONSE_BLOCK_SIZE: usize = 256;

// ---------------------------------------------------------------------------
// Specifications
// ---------------------------------------------------------------------------

/// The rejection of a message that only the admin may send, if any.
pub open spec fn admin_rejection(s: StoreView, sender: Seq<char>) -> Option<ContractError> {
    match s.config {
        None => Some(ContractError::NotFound { item: StoredItem::Config }),
        Some(st) => if sender != st.admin {
            Some(ContractError::Unauthorized)
        } else {
            None
        },
    }
}

/// A successful answer without messages.
pub open spec fn empty_ok(res: Result<HandleResponse, ContractError>) -> bool {
    res matches Ok(r) && r.messages@.len() == 0
}

/// A refusal with error `e` that leaves the storage as it was.
pub open spec fn refused(
    old: StoreView,
    new: StoreView,
    res: Result<HandleResponse, ContractError>,
    e: ContractError,
) -> bool {
    res == Err::<HandleResponse, ContractError>(e) && new == old
}

/// An admin message that replaces the configuration by `f` of it.
pub open spec fn config_update_post(
    old: StoreView,
    new: StoreView,
    sender: Seq<char>,
    res: Result<HandleResponse, ContractError>,
    f: spec_fn(StateView) -> StateView,
) -> bool {
    match admin_rejection(old, sender) {
        Some(e) => refused(old, new, res, e),
        None => empty_ok(res) && new == StoreView { config: Some(f(old.config->Some_0)), ..old },
    }
}

/// The sum of the portions of `wallets`, in atomic units.
pub open spec fn portion_total(wallets: Seq<WalletView>) -> nat
    decreases wallets.len(),
{
    if wallets.len() == 0 {
        0
    } else {
        portion_total(wallets.drop_last()) + wallets.last().portion.0 as nat
    }
}

/// `SetRewardWallet` does not overflow while it adds up the portions.
pub open spec fn reward_wallet_defined(s: StoreView, sender: Seq<char>, wallet: Seq<WalletView>) -> bool {
    admin_rejection(s, sender) is None ==> portion_total(wallet) <= u128::MAX
}

/// The outcome of `SetRewardWallet`.
pub open spec fn reward_wallet_post(
    old: StoreView,
    new: StoreView,
    sender: Seq<char>,
    wallet: Seq<WalletView>,
    res: Result<HandleResponse, ContractError>,
) -> bool {
    match admin_rejection(old, sender) {
        Some(e) => refused(old, new, res, e),
        None => if portion_total(wallet) != DECIMAL_FRACTIONAL {
            refused(old, new, res, ContractError::PortionSumNotOne)
        } else {
            empty_ok(res) && new == StoreView {
                config: Some(StateView { reward_wallet: wallet, ..old.config->Some_0 }),
                ..old
            }
        },
    }
}

/// The outcome of `SetSaleFlag`.
pub open spec fn sale_flag_post(
    old: StoreView,
    new: StoreView,
    sender: Seq<char>,
    private_mint: bool,
    public_mint: bool,
    res: Result<HandleResponse, ContractError>,
) -> bool {
    match old.config {
        None => refused(old, new, res, ContractError::NotFound { item: StoredItem::Config }),
        Some(st) => if private_mint && public_mint {
            refused(old, new, res, ContractError::BothSaleFlags)
        } else if sender != st.admin {
            refused(old, new, res, ContractError::Unauthorized)
        } else {
            empty_ok(res) && new == StoreView {
                config: Some(StateView { private_mint, public_mint, ..st }),
                ..old
            }
        },
    }
}

/// The outcome of `SetWhiteUsers`.
pub open spec fn white_members_post(
    old: StoreView,
    new: StoreView,
    sender: Seq<char>,
    members: Seq<Seq<char>>,
    res: Result<HandleResponse, ContractError>,
) -> bool {
    match admin_rejection(old, sender) {
        Some(e) => refused(old, new, res, e),
        None => empty_ok(res) && new == StoreView { members: Some(members), ..old },
    }
}

/// The outcome of `AddWhiteUser`.
pub open spec fn add_white_user_post(
    old: StoreView,
    new: StoreView,
    sender: Seq<char>,
    member: Seq<char>,
    res: Result<HandleResponse, ContractError>,
) -> bool {
    match admin_rejection(old, sender) {
        Some(e) => refused(old, new, res, e),
        None => match old.members {
            None => refused(old, new, res, ContractError::NotFound { item: StoredItem::Members }),
            Some(m) => if m.contains(member) {
                refused(old, new, res, ContractError::RepeatedUser)
            } else {
                empty_ok(res) && new == StoreView { members: Some(m.push(member)), ..old }
            },
        },
    }
}

/// The outcome of `AddMetaData`.
pub open spec fn add_metadata_post(
    old: StoreView,
    new: StoreView,
    sender: Seq<char>,
    added: Seq<MetadataMsgView>,
    res: Result<HandleResponse, ContractError>,
) -> bool {
    match admin_rejection(old, sender) {
        Some(e) => refused(old, new, res, e),
        None => match old.metadata {
            None => refused(old, new, res, ContractError::NotFound { item: StoredItem::Metadata }),
            Some(md) => empty_ok(res) && new == StoreView { metadata: Some(md + added), ..old },
        },
    }
}

/// The outcome of `SetMetaData`.
pub open spec fn set_metadata_post(
    old: StoreView,
    new: StoreView,
    sender: Seq<char>,
    metadata: Seq<MetadataMsgView>,
    res: Result<HandleResponse, ContractError>,
) -> bool {
    match admin_rejection(old, sender) {
        Some(e) => refused(old, new, res, e),
        None => empty_ok(res) && new == StoreView { metadata: Some(metadata), ..old },
    }
}

/// The configuration that `init` stores for `msg`.
pub open spec fn initial_state(msg: InitMsg) -> StateView {
    StateView {
        count: 0,
        total_supply: msg.total_supply,
        admin: msg.admin@,
        maximum_count: msg.maximum_count,
        public_price: msg.public_price,
        private_price: msg.private_price,
        reward_wallet: msg.reward_wallet.deep_view(),
        public_mint: false,
        private_mint: false,
        nft_address: "nft_address"@,
        nft_contract_hash: msg.nft_contract_hash@,
        token_address: msg.token_address@,
        token_contract_hash: msg.token_contract_hash@,
        check_minted: msg.check_minted@,
    }
}

/// The outcome of instantiating the contract with `msg`.
pub open spec fn init_post(
    old: StoreView,
    new: StoreView,
    msg: InitMsg,
    res: Result<InitResponse, ContractError>,
) -> bool {
    &&& res matches Ok(r) && r.messages@.len() == 0
    &&& new == StoreView {
        config: Some(initial_state(msg)),
        members: Some(msg.white_members.deep_view()),
        metadata: Some(Seq::empty()),
        ..old
    }
}

// ---------------------------------------------------------------------------
// Instantiation and admin messages
// ---------------------------------------------------------------------------

/// Instantiates the contract: stores the configuration of `msg` with both
/// sales closed, its whitelist, and an empty metadata pool.
pub fn init(deps: &mut Store, _env: Env, msg: InitMsg) -> (res: Result<InitResponse, ContractError>)
    ensures
        init_post(old(deps)@, final(deps)@, msg, res),
{
    let ghost m = msg;
    let state = State {
        count: 0,
        total_supply: msg.total_supply,
        admin: msg.admin,
        maximum_count: msg.maximum_count,
        public_price: msg.public_price,
        private_price: msg.private_price,
        reward_wallet: msg.reward_wallet,
        public_mint: false,
        private_mint: false,
        nft_address: String::from_str("nft_address"),
        nft_contract_hash: msg.nft_contract_hash,
        token_address: msg.token_address,
        token_contract_hash: msg.token_contract_hash,
        check_minted: msg.check_minted,
    };
    deps.config = Some(state);
    deps.members = Some(msg.white_members);
    let init_metadata: Vec<MetadataMsg> = Vec::new();
    deps.metadata = Some(init_metadata);
    proof {
        assert(deps@.config == Some(initial_state(m)));
        assert(deps@.metadata->Some_0 =~= Seq::<MetadataMsgView>::empty());
    }
    Ok(InitResponse { messages: Vec::new() })
}

/// Why an admin message from `env` is refused, if it is.
fn check_admin(deps: &Store, env: &Env) -> (r: Option<ContractError>)
    ensures
        r == admin_rejection(deps@, env.message.sender@),
{
    match &deps.config {
        None => Some(ContractError::NotFound { item: StoredItem::Config }),
        Some(st) => if env.message.sender == st.admin {
            None
        } else {
            Some(ContractError::Unauthorized)
        },
    }
}

/// Sets how many tokens a whitelisted buyer may hold after the private sale.
pub fn set_maximum_nft(deps: &mut Store, env: Env, amount: u128) -> (res: Result<
    HandleResponse,
    ContractError,
>)
    ensures
        config_update_post(
            old(deps)@,
            final(deps)@,
            env.message.sender@,
            res,
            |st: StateView| StateView { maximum_count: amount, ..st },
        ),
{
    if let Some(e) = check_admin(deps, &env) {
        return Err(e);
    }
    let mut state = deps.config.take().unwrap();
    state.maximum_count = amount;
    deps.config = Some(state);
    Ok(HandleResponse { messages: Vec::new() })
}

/// Sets the number of slots of the metadata pool that can be minted.
pub fn set_total_supply(deps: &mut Store, env: Env, amount: u128) -> (res: Result<
    HandleResponse,
    ContractError,
>)
    ensures
        config_update_post(
            old(deps)@,
            final(deps)@,
            env.message.sender@,
            res,
            |st: StateView| StateView { total_supply: amount, ..st },
        ),
{
    if let Some(e) = check_admin(deps, &env) {
        return Err(e);
    }
    let mut state = deps.config.take().unwrap();
    state.total_supply = amount;
    deps.config = Some(state);
    Ok(HandleResponse { messages: Vec::new() })
}

/// Hands the admin role to `address`.
pub fn set_admin(deps: &mut Store, env: Env, address: String) -> (res: Result<
    HandleResponse,
    ContractError,
>)
    ensures
        config_update_post(
            old(deps)@,
            final(deps)@,
            env.message.sender@,
            res,
            |st: StateView| StateView { admin: address@, ..st },
        ),
{
    if let Some(e) = check_admin(deps, &env) {
        return Err(e);
    }
    let mut state = deps.config.take().unwrap();
    state.admin = address;
    deps.config = Some(state);
    Ok(HandleResponse { messages: Vec::new() })
}

/// Sets the address and code hash of the SNIP-721 contract that mints the tokens.
pub fn set_nft_address(
    deps: &mut Store,
    env: Env,
    address: String,
    nft_contract_hash: String,
) -> (res: Result<HandleResponse, ContractError>)
    ensures
        config_update_post(
            old(deps)@,
            final(deps)@,
            env.message.sender@,
            res,
            |st: StateView|
                StateView { nft_address: address@, nft_contract_hash: nft_contract_hash@, ..st },
        ),
{
    if let Some(e) = check_admin(deps, &env) {
        return Err(e);
    }
    let mut state = deps.config.take().unwrap();
    state.nft_address = address;
    state.nft_contract_hash = nft_contract_hash;
    deps.config = Some(state);
    Ok(HandleResponse { messages: Vec::new() })
}

/// Sets the address and code hash of the SNIP-20 contract in which buyers pay.
pub fn set_token_address(
    deps: &mut Store,
    env: Env,
    address: String,
    token_contract_hash: String,
) -> (res: Result<HandleResponse, ContractError>)
    ensures
        config_update_post(
            old(deps)@,
            final(deps)@,
            env.message.sender@,
            res,
            |st: StateView|
                StateView {
                    token_address: address@,
                    token_contract_hash: token_contract_hash@,
                    ..st
                },
        ),
{
    if let Some(e) = check_admin(deps, &env) {
        return Err(e);
    }
    let mut state = deps.config.take().unwrap();
    state.token_address = address;
    state.token_contract_hash = token_contract_hash;
    deps.config = Some(state);
    Ok(HandleResponse { messages: Vec::new() })
}

/// Sets the prices of the public and of the private sale.
pub fn set_price(deps: &mut Store, env: Env, public_price: u128, private_price: u128) -> (res:
    Result<HandleResponse, ContractError>)
    ensures
        config_update_post(
            old(deps)@,
            final(deps)@,
            env.message.sender@,
            res,
            |st: StateView| StateView { public_price, private_price, ..st },
        ),
{
    if let Some(e) = check_admin(deps, &env) {
        return Err(e);
    }
    let mut state = deps.config.take().unwrap();
    state.public_price = public_price;
    state.private_price = private_price;
    deps.config = Some(state);
    Ok(HandleResponse { messages: Vec::new() })
}

/// Adds up the portions of `wallet`.
fn sum_portions(wallet: &Vec<Wallet>) -> (total: Decimal)
    requires
        portion_total(wallet.deep_view()) <= u128::MAX,
    ensures
        total.0 == portion_total(wallet.deep_view()),
{
    let ghost w = wallet.deep_view();
    let mut portion = Decimal::zero();
    let mut i: usize = 0;
    while i < wallet.len()
        invariant
            w == wallet.deep_view(),
            portion_total(w) <= u128::MAX,
            i <= wallet@.len(),
            portion.0 == portion_total(w.take(i as int)),
        decreases wallet@.len() - i,
    {
        proof {
            assert(w.take(i + 1).drop_last() =~= w.take(i as int));
            lemma_portion_total_prefix(w, i + 1);
        }
        portion = wallet[i].portion.add(portion);
        i = i + 1;
    }
    assert(w.take(i as int) =~= w);
    portion
}

/// A prefix of the wallets adds up to no more than all of them.
proof fn lemma_portion_total_prefix(w: Seq<WalletView>, n: int)
    requires
        0 <= n <= w.len(),
    ensures
        portion_total(w.take(n)) <= portion_total(w),
    decreases w.len() - n,
{
    if n < w.len() {
        lemma_portion_total_prefix(w, n + 1);
        assert(w.take(n + 1).drop_last() =~= w.take(n));
    } else {
        assert(w.take(n) =~= w);
    }
}

/// Replaces the reward wallets; their portions must add up to exactly one.
pub fn set_reward_wallet(deps: &mut Store, env: Env, wallet: Vec<Wallet>) -> (res: Result<
    HandleResponse,
    ContractError,
>)
    requires
        reward_wallet_defined(old(deps)@, env.message.sender@, wallet.deep_view()),
    ensures
        reward_wallet_post(old(deps)@, final(deps)@, env.message.sender@, wallet.deep_view(), res),
{
    if let Some(e) = check_admin(deps, &env) {
        return Err(e);
    }
    let portion = sum_portions(&wallet);
    if portion.0 != Decimal::one().0 {
        return Err(ContractError::PortionSumNotOne);
    }
    let mut state = deps.config.take().unwrap();
    state.reward_wallet = wallet;
    deps.config = Some(state);
    Ok(HandleResponse { messages: Vec::new() })
}

/// Opens or closes the private and the public sale; they cannot both be open.
pub fn set_mint_time(deps: &mut Store, env: Env, private_mint: bool, public_mint: bool) -> (res:
    Result<HandleResponse, ContractError>)
    ensures
        sale_flag_post(old(deps)@, final(deps)@, env.message.sender@, private_mint, public_mint, res),
{
    match &deps.config {
        None => {
            return Err(ContractError::NotFound { item: StoredItem::Config });
        },
        Some(st) => {
            if private_mint && public_mint {
                return Err(ContractError::BothSaleFlags);
            }
            if !(env.message.sender == st.admin) {
                return Err(ContractError::Unauthorized);
            }
        },
    }
    let mut state = deps.config.take().unwrap();
    state.private_mint = private_mint;
    state.public_mint = public_mint;
    deps.config = Some(state);
    Ok(HandleResponse { messages: Vec::new() })
}

/// Replaces the whitelist of the private sale.
pub fn set_white_members(deps: &mut Store, env: Env, new_members: Vec<String>) -> (res: Result<
    HandleResponse,
    ContractError,
>)
    ensures
        white_members_post(old(deps)@, final(deps)@, env.message.sender@, new_members.deep_view(), res),
{
    if let Some(e) = check_admin(deps, &env) {
        return Err(e);
    }
    deps.members = Some(new_members);
    Ok(HandleResponse { messages: Vec::new() })
}

/// Whether `list` holds `address`.
pub fn contains_address(list: &Vec<String>, address: &String) -> (b: bool)
    ensures
        b == list.deep_view().contains(address@),
{
    let ghost d = list.deep_view();
    let mut found = false;
    let mut i: usize = 0;
    while i < list.len()
        invariant
            d == list.deep_view(),
            i <= list@.len(),
            found == (exists|j: int| 0 <= j < i && #[trigger] d[j] == address@),
        decreases list@.len() - i,
    {
        if list[i] == *address {
            found = true;
            assert(d[i as int] == address@);
        }
        i = i + 1;
    }
    found
}

/// Adds `member` to the whitelist, unless it is already there.
pub fn add_white_user(deps: &mut Store, env: Env, member: String) -> (res: Result<
    HandleResponse,
    ContractError,
>)
    ensures
        add_white_user_post(old(deps)@, final(deps)@, env.message.sender@, member@, res),
{
    if let Some(e) = check_admin(deps, &env) {
        return Err(e);
    }
    match &deps.members {
        None => {
            return Err(ContractError::NotFound { item: StoredItem::Members });
        },
        Some(crr_members) => {
            if contains_address(crr_members, &member) {
                return Err(ContractError::RepeatedUser);
            }
        },
    }
    let mut members = deps.members.take().unwrap();
    let ghost before = members.deep_view();
    members.push(member);
    assert(members.deep_view() =~= before.push(member@));
    deps.members = Some(members);
    Ok(HandleResponse { messages: Vec::new() })
}

/// Appends `new_metadata` to the metadata pool.
pub fn add_metadata(deps: &mut Store, env: Env, new_metadata: Vec<MetadataMsg>) -> (res: Result<
    HandleResponse,
    ContractError,
>)
    ensures
        add_metadata_post(old(deps)@, final(deps)@, env.message.sender@, new_metadata.deep_view(), res),
{
    if let Some(e) = check_admin(deps, &env) {
        return Err(e);
    }
    if deps.metadata.is_none() {
        return Err(ContractError::NotFound { item: StoredItem::Metadata });
    }
    let mut metadata = deps.metadata.take().unwrap();
    let ghost before = metadata.deep_view();
    let mut added = new_metadata;
    let ghost added_view = added.deep_view();
    metadata.append(&mut added);
    assert(metadata.deep_view() =~= before + added_view);
    deps.metadata = Some(metadata);
    Ok(HandleResponse { messages: Vec::new() })
}

/// Replaces the metadata pool.
pub fn set_metadata(deps: &mut Store, env: Env, new_metadata: Vec<MetadataMsg>) -> (res: Result<
    HandleResponse,
    ContractError,
>)
    ensures
        set_metadata_post(old(deps)@, final(deps)@, env.message.sender@, new_metadata.deep_view(), res),
{
    if let Some(e) = check_admin(deps, &env) {
        return Err(e);
    }
    deps.metadata = Some(new_metadata);
    Ok(HandleResponse { messages: Vec::new() })
}

// ---------------------------------------------------------------------------
// Minting
// ---------------------------------------------------------------------------

/// The slot `k` steps after `start` on a ring of `total` slots (for `start, k < total`).
pub open spec fn ring_pos(start: int, k: int, total: int) -> int {
    if start + k < total {
        start + k
    } else {
        start + k - total
    }
}

/// The first slot not yet minted, looking from `k` steps after `start` onwards.
pub open spec fn scan_slot(check: Seq<bool>, total: int, start: int, k: int) -> int
    decreases total - k,
{
    if k >= total {
        start
    } else if check[ring_pos(start, k, total)] {
        ring_pos(start, k, total)
    } else {
        scan_slot(check, total, start, k + 1)
    }
}

/// The slot that a sale mints when the draw is `start`: the first slot not yet
/// minted at or after `start`, wrapping around at `total`.
pub open spec fn minted_slot(check: Seq<bool>, total: int, start: int) -> int {
    scan_slot(check, total, start, 0)
}

/// The sale is open to a payment from the token contract `sender`, and supply is left.
pub open spec fn sale_open_for(s: StoreView, sender: Seq<char>) -> bool {
    s.config matches Some(st) && (st.private_mint || st.public_mint) && st.token_address == sender
        && st.count < st.total_supply
}

/// The token ids that `buyer` holds before a sale.
pub open spec fn held_tokens(s: StoreView, buyer: Seq<char>) -> Seq<Seq<char>> {
    if s.users.contains_key(buyer) {
        s.users[buyer]
    } else {
        Seq::empty()
    }
}

/// The buyer is allowed in the open sale and paid its price.
pub open spec fn payment_accepted(s: StoreView, st: StateView, buyer: Seq<char>, amount: u128) -> bool {
    if st.private_mint {
        s.members matches Some(m) && m.contains(buyer) && amount == st.private_price
    } else {
        amount == st.public_price
    }
}

/// Why a payment of `amount` by `buyer`, reported by `sender`, is refused, if it is.
pub open spec fn mint_rejection(s: StoreView, sender: Seq<char>, buyer: Seq<char>, amount: u128) -> Option<
    ContractError,
> {
    match s.config {
        None => Some(ContractError::NotFound { item: StoredItem::Config }),
        Some(st) => if !st.private_mint && !st.public_mint {
            Some(ContractError::PresaleNotStarted)
        } else if st.token_address != sender {
            Some(ContractError::WrongContractAddress)
        } else if st.total_supply <= st.count {
            Some(ContractError::SupplyExhausted)
        } else if s.metadata is None {
            Some(ContractError::NotFound { item: StoredItem::Metadata })
        } else if st.private_mint {
            match s.members {
                None => Some(ContractError::NotFound { item: StoredItem::Members }),
                Some(m) => if !m.contains(buyer) {
                    Some(ContractError::NotWhitelisted)
                } else if amount != st.private_price {
                    Some(ContractError::NotExactMoney)
                } else if s.users.contains_key(buyer) && s.users[buyer].len() >= st.maximum_count {
                    Some(ContractError::UserLimitReached)
                } else {
                    None
                },
            }
        } else if amount != st.public_price {
            Some(ContractError::NotExactMoney)
        } else {
            None
        },
    }
}

/// The inputs on which a sale neither panics nor loops: the pool of flags
/// covers the supply and has a free slot, each free slot has metadata (with a
/// token id once the payment is accepted), and no share of the payment overflows.
pub open spec fn mint_defined(s: StoreView, sender: Seq<char>, buyer: Seq<char>, amount: u128) -> bool {
    sale_open_for(s, sender) ==> {
        let st = s.config->Some_0;
        &&& st.total_supply <= st.check_minted.len()
        &&& exists|i: int| 0 <= i < st.total_supply && #[trigger] st.check_minted[i]
        &&& (s.metadata matches Some(md) ==> forall|i: int|
            0 <= i < st.total_supply && #[trigger] st.check_minted[i] ==> i < md.len() && (
            payment_accepted(s, st, buyer, amount) ==> md[i].token_id is Some))
        &&& (mint_rejection(s, sender, buyer, amount) is None ==> forall|k: int|
            0 <= k < st.reward_wallet.len() ==> amount * (#[trigger] st.reward_wallet[k]).portion.0
                <= u128::MAX)
    }
}

/// The draw `start` lies on the ring of slots whenever supply is left.
pub open spec fn mint_start_ok(s: StoreView, start: int) -> bool {
    &&& 0 <= start
    &&& match s.config {
        Some(st) => st.count < st.total_supply ==> start < st.total_supply,
        None => true,
    }
}

/// The inputs on which a sale with the draw `start` neither panics nor loops:
/// the search from `start` stays inside the pool of flags until it meets a
/// free slot, that slot has metadata (with a token id once the payment is
/// accepted), and no share of the payment overflows.
pub open spec fn mint_defined_at(
    s: StoreView,
    sender: Seq<char>,
    buyer: Seq<char>,
    amount: u128,
    start: int,
) -> bool {
    sale_open_for(s, sender) ==> {
        let st = s.config->Some_0;
        let slot = minted_slot(st.check_minted, st.total_supply as int, start);
        &&& scan_defined(st.check_minted, st.total_supply as int, start, 0)
        &&& (s.metadata matches Some(md) ==> slot < md.len() && (payment_accepted(
            s,
            st,
            buyer,
            amount,
        ) ==> md[slot].token_id is Some))
        &&& (mint_rejection(s, sender, buyer, amount) is None ==> forall|k: int|
            0 <= k < st.reward_wallet.len() ==> amount * (#[trigger] st.reward_wallet[k]).portion.0
                <= u128::MAX)
    }
}

/// A sale defined for every draw is defined for each draw below the supply.
pub proof fn lemma_mint_defined_at(
    s: StoreView,
    sender: Seq<char>,
    buyer: Seq<char>,
    amount: u128,
    start: int,
)
    requires
        mint_defined(s, sender, buyer, amount),
        mint_start_ok(s, start),
    ensures
        mint_defined_at(s, sender, buyer, amount, start),
{
    if sale_open_for(s, sender) {
        let st = s.config->Some_0;
        let total = st.total_supply as int;
        lemma_scan_defined(st.check_minted, total, start, 0);
        lemma_minted_slot_is_free(st.check_minted, total, start);
        let slot = minted_slot(st.check_minted, total, start);
        assert(st.check_minted[slot]);
    }
}

/// The public metadata of a minted token, made from the slot's metadata `meta`.
pub open spec fn minted_metadata(pm: Metadata, meta: MetadataMsgView) -> bool {
    &&& pm.token_uri is None
    &&& pm.extension matches Some(ext) && {
        &&& ext.image.deep_view() == meta.image
        &&& ext.image_data is None
        &&& ext.external_url is None
        &&& ext.description.deep_view() == meta.description
        &&& ext.name.deep_view() == meta.name
        &&& ext.attributes.deep_view() == meta.attributes
        &&& ext.background_color is None
        &&& ext.animation_url is None
        &&& ext.youtube_url is None
        &&& ext.media is None
        &&& ext.protected_attributes is None
    }
}

/// `m` mints the token of `meta` for `buyer` on the configured SNIP-721 contract.
pub open spec fn is_mint_message(m: OutMsg, st: StateView, meta: MetadataMsgView, buyer: Seq<char>) -> bool {
    match m {
        OutMsg::MintNft { contract_addr, callback_code_hash, msg } => {
            &&& contract_addr@ == st.nft_address
            &&& callback_code_hash@ == st.nft_contract_hash
            &&& match msg {
                ExecuteMsg::MintNft {
                    token_id,
                    owner,
                    public_metadata,
                    private_metadata,
                    serial_number,
                    royalty_info,
                    transferable,
                    memo,
                    padding,
                } => {
                    &&& token_id.deep_view() == meta.token_id
                    &&& owner.deep_view() == Some(buyer)
                    &&& public_metadata matches Some(pm) && minted_metadata(pm, meta)
                    &&& private_metadata is None
                    &&& serial_number is None
                    &&& royalty_info is None
                    &&& transferable is None
                    &&& memo is None
                    &&& padding is None
                },
            }
        },
        _ => false,
    }
}

/// `m` pays wallet `w` its share of `amount` on the configured SNIP-20 contract.
pub open spec fn is_transfer_message(m: OutMsg, st: StateView, w: WalletView, amount: u128) -> bool {
    match m {
        OutMsg::Transfer { contract_addr, callback_code_hash, recipient, amount: a } => {
            &&& contract_addr@ == st.token_address
            &&& callback_code_hash@ == st.token_contract_hash
            &&& recipient@ == w.address
            &&& a == share_of(amount, w.portion)
        },
        _ => false,
    }
}

/// The messages of a sale: the mint, then one transfer per reward wallet, in order.
pub open spec fn sale_messages(
    msgs: Seq<OutMsg>,
    st: StateView,
    meta: MetadataMsgView,
    buyer: Seq<char>,
    amount: u128,
) -> bool {
    &&& msgs.len() == st.reward_wallet.len() + 1
    &&& is_mint_message(msgs[0], st, meta, buyer)
    &&& forall|k: int|
        #![trigger st.reward_wallet[k]]
        0 <= k < st.reward_wallet.len() ==> is_transfer_message(
            msgs[k + 1],
            st,
            st.reward_wallet[k],
            amount,
        )
}

/// The outcome of a payment of `amount` by `buyer`, reported by `sender`, when the draw is `start`.
pub open spec fn mint_post_at(
    old: StoreView,
    new: StoreView,
    sender: Seq<char>,
    buyer: Seq<char>,
    amount: u128,
    start: int,
    res: Result<HandleResponse, ContractError>,
) -> bool {
    match mint_rejection(old, sender, buyer, amount) {
        Some(e) => refused(old, new, res, e),
        None => {
            let st = old.config->Some_0;
            let md = old.metadata->Some_0;
            let slot = minted_slot(st.check_minted, st.total_supply as int, start);
            let token = md[slot].token_id->Some_0;
            &&& new == StoreView {
                config: Some(StateView { check_minted: st.check_minted.update(slot, false), ..st }),
                users: old.users.insert(buyer, held_tokens(old, buyer).push(token)),
                ..old
            }
            &&& res matches Ok(r) && sale_messages(r.messages@, st, md[slot], buyer, amount)
        },
    }
}

/// Scanning from `k` steps after `start`, when every slot passed so far was
/// taken, finds a free slot on the ring.
proof fn lemma_scan_finds_free(check: Seq<bool>, total: int, start: int, k: int)
    requires
        0 <= start < total <= check.len(),
        0 <= k < total,
        exists|i: int| 0 <= i < total && #[trigger] check[i],
        forall|j: int| 0 <= j < k ==> !#[trigger] check[ring_pos(start, j, total)],
    ensures
        0 <= scan_slot(check, total, start, k) < total,
        check[scan_slot(check, total, start, k)],
    decreases total - k,
{
    if !check[ring_pos(start, k, total)] {
        if k + 1 >= total {
            let w = choose|w: int| 0 <= w < total && #[trigger] check[w];
            let off = if w >= start {
                w - start
            } else {
                w + total - start
            };
            assert(ring_pos(start, off, total) == w);
            if off < k {
                assert(!check[ring_pos(start, off, total)]);
            }
        } else {
            lemma_scan_finds_free(check, total, start, k + 1);
        }
    }
}

/// The slot that a sale mints is a free slot below `total`.
pub proof fn lemma_minted_slot_is_free(check: Seq<bool>, total: int, start: int)
    requires
        0 <= start < total <= check.len(),
        exists|i: int| 0 <= i < total && #[trigger] check[i],
    ensures
        0 <= minted_slot(check, total, start) < total,
        check[minted_slot(check, total, start)],
{
    lemma_scan_finds_free(check, total, start, 0);
}

/// The search for a free slot from `k` steps after `start` stays inside the
/// pool of flags until it meets a free slot, and meets one before it has gone
/// once round the ring of `total` slots.
pub open spec fn scan_defined(check: Seq<bool>, total: int, start: int, k: int) -> bool
    decreases total - k,
{
    if k >= total {
        false
    } else {
        let p = ring_pos(start, k, total);
        p < check.len() && (check[p] || scan_defined(check, total, start, k + 1))
    }
}

/// When the pool covers the ring and holds a free slot below `total`, the
/// search from `k` steps after `start` is defined, provided the slots passed
/// so far were taken.
proof fn lemma_scan_defined(check: Seq<bool>, total: int, start: int, k: int)
    requires
        0 <= start < total <= check.len(),
        0 <= k < total,
        exists|i: int| 0 <= i < total && #[trigger] check[i],
        forall|j: int| 0 <= j < k ==> !#[trigger] check[ring_pos(start, j, total)],
    ensures
        scan_defined(check, total, start, k),
    decreases total - k,
{
    if !check[ring_pos(start, k, total)] {
        if k + 1 >= total {
            let w = choose|w: int| 0 <= w < total && #[trigger] check[w];
            let off = if w >= start {
                w - start
            } else {
                w + total - start
            };
            assert(ring_pos(start, off, total) == w);
            if off < k {
                assert(!check[ring_pos(start, off, total)]);
            }
        } else {
            lemma_scan_defined(check, total, start, k + 1);
        }
    }
}

/// The slot that a sale mints when the draw is `start`.
pub fn pick_slot(check: &Vec<bool>, total: u128, start: u128) -> (slot: u128)
    requires
        start < total,
        scan_defined(check@, total as int, start as int, 0),
    ensures
        slot == minted_slot(check@, total as int, start as int),
        slot < total,
        slot < check@.len(),
        check@[slot as int],
{
    let pool = check.len();
    let mut i = start;
    let ghost mut k: int = 0;
    proof {
        assert(scan_defined(check@, total as int, start as int, 0));
    }
    while !check[i as usize]
        invariant
            pool == check@.len(),
            start < total,
            0 <= k < total,
            i < total,
            i == ring_pos(start as int, k, total as int),
            i < check@.len(),
            scan_defined(check@, total as int, start as int, k),
            minted_slot(check@, total as int, start as int) == scan_slot(
                check@,
                total as int,
                start as int,
                k,
            ),
        decreases total - k,
    {
        proof {
            assert(scan_defined(check@, total as int, start as int, k + 1));
            assert(k + 1 < total);
            assert(ring_pos(start as int, k + 1, total as int) < check@.len());
        }
        i = if i + 1 == total {
            0
        } else {
            i + 1
        };
        proof {
            k = k + 1;
        }
    }
    i
}

/// The messages of a sale of the token `token_id` of slot `meta` to `buyer`.
fn sale_messages_for(
    st: &State,
    meta: &MetadataMsg,
    buyer: &String,
    token_id: String,
    amount: u128,
) -> (msgs: Vec<OutMsg>)
    requires
        meta.tokenId.deep_view() == Some(token_id@),
        forall|k: int|
            0 <= k < st.reward_wallet@.len() ==> amount * (#[trigger] st.reward_wallet@[k]).portion.0
                <= u128::MAX,
    ensures
        sale_messages(msgs@, st.deep_view(), meta.deep_view(), buyer@, amount),
{
    let ghost stv = st.deep_view();
    let ghost mv = meta.deep_view();
    let extension = Extension {
        image: meta.image.duplicate(),
        image_data: None,
        external_url: None,
        description: meta.description.duplicate(),
        name: meta.name.duplicate(),
        attributes: meta.attributes.duplicate(),
        background_color: None,
        animation_url: None,
        youtube_url: None,
        media: None,
        protected_attributes: None,
    };
    let mint = OutMsg::MintNft {
        contract_addr: st.nft_address.duplicate(),
        callback_code_hash: st.nft_contract_hash.duplicate(),
        msg: ExecuteMsg::MintNft {
            token_id: Some(token_id),
            owner: Some(buyer.duplicate()),
            public_metadata: Some(Metadata { token_uri: None, extension: Some(extension) }),
            private_metadata: None,
            serial_number: None,
            royalty_info: None,
            transferable: None,
            memo: None,
            padding: None,
        },
    };
    let mut msgs: Vec<OutMsg> = Vec::new();
    msgs.push(mint);
    let mut k: usize = 0;
    while k < st.reward_wallet.len()
        invariant
            stv == st.deep_view(),
            mv == meta.deep_view(),
            k <= st.reward_wallet@.len(),
            msgs@.len() == k + 1,
            is_mint_message(msgs@[0], stv, mv, buyer@),
            forall|j: int|
                #![trigger stv.reward_wallet[j]]
                0 <= j < k ==> is_transfer_message(msgs@[j + 1], stv, stv.reward_wallet[j], amount),
            forall|j: int|
                0 <= j < st.reward_wallet@.len() ==> amount * (#[trigger] st.reward_wallet@[j]).portion.0
                    <= u128::MAX,
        decreases st.reward_wallet@.len() - k,
    {
        let w = &st.reward_wallet[k];
        let share = w.portion.mul_amount(amount);
        let transfer = OutMsg::Transfer {
            contract_addr: st.token_address.duplicate(),
            callback_code_hash: st.token_contract_hash.duplicate(),
            recipient: w.address.duplicate(),
            amount: share,
        };
        msgs.push(transfer);
        assert(stv.reward_wallet[k as int] == w.deep_view());
        k = k + 1;
    }
    msgs
}

/// Sells one token to `sender`, who paid `amount` through the token contract,
/// when the draw of the slot is `start`.
///
/// The slot minted is the first free one at or after `start`.  The buyer's
/// token ids grow by the slot's token id, the slot is marked as minted, and
/// the answer mints the token and splits the payment among the reward wallets.
pub fn mint_nft_at(
    deps: &mut Store,
    env: Env,
    sender: String,
    _from: String,
    amount: u128,
    _msg: Vec<u8>,
    start: u128,
) -> (res: Result<HandleResponse, ContractError>)
    requires
        mint_defined_at(old(deps)@, env.message.sender@, sender@, amount, start as int),
        mint_start_ok(old(deps)@, start as int),
    ensures
        mint_post_at(old(deps)@, final(deps)@, env.message.sender@, sender@, amount, start as int, res),
{
    let ghost s0 = deps@;
    let st = match &deps.config {
        None => {
            return Err(ContractError::NotFound { item: StoredItem::Config });
        },
        Some(st) => st,
    };
    if !st.private_mint && !st.public_mint {
        return Err(ContractError::PresaleNotStarted);
    }
    if !(st.token_address == env.message.sender) {
        return Err(ContractError::WrongContractAddress);
    }
    if st.total_supply <= st.count {
        return Err(ContractError::SupplyExhausted);
    }
    let ghost stv = st.deep_view();
    assert(s0.config == Some(stv));
    assert(sale_open_for(s0, env.message.sender@));
    assert(stv.check_minted == st.check_minted@);
    let slot = pick_slot(&st.check_minted, st.total_supply, start);
    let pool = st.check_minted.len();
    assert(slot < pool);
    let md = match &deps.metadata {
        None => {
            return Err(ContractError::NotFound { item: StoredItem::Metadata });
        },
        Some(md) => md,
    };
    assert(s0.metadata->Some_0[slot as int] == md@[slot as int].deep_view());
    let meta = &md[slot as usize];
    if st.private_mint {
        let members = match &deps.members {
            None => {
                return Err(ContractError::NotFound { item: StoredItem::Members });
            },
            Some(m) => m,
        };
        if !contains_address(members, &sender) {
            return Err(ContractError::NotWhitelisted);
        }
        if amount != st.private_price {
            return Err(ContractError::NotExactMoney);
        }
    } else if amount != st.public_price {
        return Err(ContractError::NotExactMoney);
    }
    let token_id = meta.tokenId.duplicate().unwrap();
    let held = read_user_info(deps, &sender);
    let new_tokens = match held {
        None => {
            let mut v: Vec<String> = Vec::new();
            v.push(token_id.duplicate());
            assert(v.deep_view() =~= held_tokens(s0, sender@).push(token_id@));
            v
        },
        Some(mut v) => {
            if st.private_mint && v.len() as u128 >= st.maximum_count {
                return Err(ContractError::UserLimitReached);
            }
            let ghost before = v.deep_view();
            v.push(token_id.duplicate());
            assert(v.deep_view() =~= before.push(token_id@));
            v
        },
    };
    proof {
        assert(mint_rejection(s0, env.message.sender@, sender@, amount) is None);
        assert forall|k: int| 0 <= k < st.reward_wallet@.len() implies amount * (
        #[trigger] st.reward_wallet@[k]).portion.0 <= u128::MAX by {
            assert(stv.reward_wallet[k] == st.reward_wallet@[k].deep_view());
        }
    }
    let messages = sale_messages_for(st, meta, &sender, token_id, amount);
    let mut state = deps.config.take().unwrap();
    state.check_minted.set(slot as usize, false);
    deps.config = Some(state);
    store_user_info(deps, &sender, new_tokens);
    Ok(HandleResponse { messages })
}

/// A number drawn uniformly from `0..total` by `rand`'s standard generator,
/// freshly seeded from the operating system's source of randomness
/// (`StdRng::from_rng(OsRng)`, then `Rng::gen_range(0, total)`).  Seeding
/// reports a failure of that source instead of panicking; then no number is
/// drawn.  On `wasm32-unknown-unknown`, the target of an on-chain contract,
/// the source always fails.  Which number comes out depends on the source and
/// is not stated, nor when the source fails.
#[verifier::external_body]
fn random_below(total: u128) -> (r: Option<u128>)
    requires
        0 < total,
    ensures
        r matches Some(x) ==> x < total,
{
    match rand::rngs::StdRng::from_rng(rand::rngs::OsRng) {
        Ok(mut rng) => Some(rand::Rng::gen_range(&mut rng, 0u128, total)),
        Err(_) => None,
    }
}

/// The outcome of a sale whose draw could not be made: it is refused, and
/// the storage stays as it was.
pub open spec fn randomness_refused(
    old: StoreView,
    new: StoreView,
    sender: Seq<char>,
    res: Result<HandleResponse, ContractError>,
) -> bool {
    sale_open_for(old, sender) && refused(old, new, res, ContractError::RandomnessUnavailable)
}

/// The outcome of a payment of `amount` by `buyer`, reported by `sender`,
/// with a random draw: the outcome for some draw below the supply, or, where
/// a draw is needed and no randomness can be had, a refusal.
pub open spec fn mint_post(
    old: StoreView,
    new: StoreView,
    sender: Seq<char>,
    buyer: Seq<char>,
    amount: u128,
    res: Result<HandleResponse, ContractError>,
) -> bool {
    (exists|start: int|
        mint_start_ok(old, start) && #[trigger] mint_post_at(
            old,
            new,
            sender,
            buyer,
            amount,
            start,
            res,
        )) || randomness_refused(old, new, sender, res)
}

/// Sells one token to `sender`, who paid `amount` through the token contract.
///
/// The first free slot at or after a random draw is minted; see [`mint_nft_at`].
/// Where no randomness can be had, the sale is refused.
pub fn mint_nft(
    deps: &mut Store,
    env: Env,
    sender: String,
    _from: String,
    amount: u128,
    _msg: Vec<u8>,
) -> (res: Result<HandleResponse, ContractError>)
    requires
        mint_defined(old(deps)@, env.message.sender@, sender@, amount),
    ensures
        mint_post(old(deps)@, final(deps)@, env.message.sender@, sender@, amount, res),
{
    let mut start: u128 = 0;
    if let Some(st) = &deps.config {
        if (st.private_mint || st.public_mint) && st.token_address == env.message.sender
            && st.count < st.total_supply {
            match random_below(st.total_supply) {
                Some(r) => {
                    start = r;
                },
                None => {
                    return Err(ContractError::RandomnessUnavailable);
                },
            }
        }
    }
    let ghost s0 = deps@;
    let ghost sender_env = env.message.sender@;
    let ghost buyer = sender@;
    proof {
        lemma_mint_defined_at(s0, sender_env, buyer, amount, start as int);
    }
    let res = mint_nft_at(deps, env, sender, _from, amount, _msg, start);
    assert(mint_post_at(s0, deps@, sender_env, buyer, amount, start as int, res));
    res
}

// ---------------------------------------------------------------------------
// Dispatch
// ---------------------------------------------------------------------------

/// The inputs on which handling `msg` neither panics nor loops.
pub open spec fn handle_defined(s: StoreView, sender: Seq<char>, msg: HandleMsg) -> bool {
    match msg {
        HandleMsg::Receive { sender: buyer, amount, .. } => mint_defined(s, sender, buyer@, amount),
        HandleMsg::SetRewardWallet { wallet } => reward_wallet_defined(s, sender, wallet.deep_view()),
        _ => true,
    }
}

/// The outcome of handling `msg` sent by `sender`.
pub open spec fn handle_post(
    old: StoreView,
    new: StoreView,
    sender: Seq<char>,
    msg: HandleMsg,
    res: Result<HandleResponse, ContractError>,
) -> bool {
    match msg {
        HandleMsg::Receive { sender: buyer, amount, .. } => mint_post(
            old,
            new,
            sender,
            buyer@,
            amount,
            res,
        ),
        HandleMsg::SetMaximumNft { amount } => config_update_post(
            old,
            new,
            sender,
            res,
            |st: StateView| StateView { maximum_count: amount, ..st },
        ),
        HandleMsg::SetTotalSupply { amount } => config_update_post(
            old,
            new,
            sender,
            res,
            |st: StateView| StateView { total_supply: amount, ..st },
        ),
        HandleMsg::ChangeAdmin { address } => config_update_post(
            old,
            new,
            sender,
            res,
            |st: StateView| StateView { admin: address@, ..st },
        ),
        HandleMsg::SetRewardWallet { wallet } => reward_wallet_post(
            old,
            new,
            sender,
            wallet.deep_view(),
            res,
        ),
        HandleMsg::SetPrice { public_price, private_price } => config_update_post(
            old,
            new,
            sender,
            res,
            |st: StateView| StateView { public_price, private_price, ..st },
        ),
        HandleMsg::SetSaleFlag { private_mint, public_mint } => sale_flag_post(
            old,
            new,
            sender,
            private_mint,
            public_mint,
            res,
        ),
        HandleMsg::SetWhiteUsers { members } => white_members_post(
            old,
            new,
            sender,
            members.deep_view(),
            res,
        ),
        HandleMsg::AddWhiteUser { member } => add_white_user_post(old, new, sender, member@, res),
        HandleMsg::SetNftAddress { nft_address, nft_contract_hash } => config_update_post(
            old,
            new,
            sender,
            res,
            |st: StateView|
                StateView {
                    nft_address: nft_address@,
                    nft_contract_hash: nft_contract_hash@,
                    ..st
                },
        ),
        HandleMsg::SetTokenAddres { token_address, token_contract_hash } => config_update_post(
            old,
            new,
            sender,
            res,
            |st: StateView|
                StateView {
                    token_address: token_address@,
                    token_contract_hash: token_contract_hash@,
                    ..st
                },
        ),
        HandleMsg::AddMetaData { metadata } => add_metadata_post(
            old,
            new,
            sender,
            metadata.deep_view(),
            res,
        ),
        HandleMsg::SetMetaData { metadata } => set_metadata_post(
            old,
            new,
            sender,
            metadata.deep_view(),
            res,
        ),
    }
}

/// Handles a message sent to the contract.
pub fn handle(deps: &mut Store, env: Env, msg: HandleMsg) -> (res: Result<HandleResponse, ContractError>)
    requires
        handle_defined(old(deps)@, env.message.sender@, msg),
    ensures
        handle_post(old(deps)@, final(deps)@, env.message.sender@, msg, res),
{
    let ghost m = msg;
    match msg {
        HandleMsg::Receive { sender, from, amount, msg } => mint_nft(deps, env, sender, from, amount, msg),
        HandleMsg::SetMaximumNft { amount } => set_maximum_nft(deps, env, amount),
        HandleMsg::SetTotalSupply { amount } => set_total_supply(deps, env, amount),
        HandleMsg::ChangeAdmin { address } => set_admin(deps, env, address),
        HandleMsg::SetRewardWallet { wallet } => set_reward_wallet(deps, env, wallet),
        HandleMsg::SetPrice { public_price, private_price } => set_price(
            deps,
            env,
            public_price,
            private_price,
        ),
        HandleMsg::SetSaleFlag { private_mint, public_mint } => set_mint_time(
            deps,
            env,
            private_mint,
            public_mint,
        ),
        HandleMsg::SetWhiteUsers { members } => set_white_members(deps, env, members),
        HandleMsg::AddWhiteUser { member } => add_white_user(deps, env, member),
        HandleMsg::SetNftAddress { nft_address, nft_contract_hash } => set_nft_address(
            deps,
            env,
            nft_address,
            nft_contract_hash,
        ),
        HandleMsg::SetTokenAddres { token_address, token_contract_hash } => set_token_address(
            deps,
            env,
            token_address,
            token_contract_hash,
        ),
        HandleMsg::AddMetaData { metadata } => add_metadata(deps, env, metadata),
        HandleMsg::SetMetaData { metadata } => set_metadata(deps, env, metadata),
    }
}

// ---------------------------------------------------------------------------
// Queries
// ---------------------------------------------------------------------------

/// The configuration.
pub fn query_state_info(deps: &Store) -> (res: Result<State, ContractError>)
    ensures
        match deps@.config {
            None => res == Err::<State, ContractError>(
                ContractError::NotFound { item: StoredItem::Config },
            ),
            Some(v) => res matches Ok(st) && st.deep_view() == v,
        },
{
    match &deps.config {
        None => Err(ContractError::NotFound { item: StoredItem::Config }),
        Some(st) => Ok(st.duplicate()),
    }
}

/// The metadata pool.
pub fn query_metadata(deps: &Store) -> (res: Result<Vec<MetadataMsg>, ContractError>)
    ensures
        match deps@.metadata {
            None => res == Err::<Vec<MetadataMsg>, ContractError>(
                ContractError::NotFound { item: StoredItem::Metadata },
            ),
            Some(v) => res matches Ok(md) && md.deep_view() == v,
        },
{
    match &deps.metadata {
        None => Err(ContractError::NotFound { item: StoredItem::Metadata }),
        Some(md) => Ok(md.duplicate()),
    }
}

/// The whitelist.
pub fn query_white_users(deps: &Store) -> (res: Result<Vec<String>, ContractError>)
    ensures
        match deps@.members {
            None => res == Err::<Vec<String>, ContractError>(
                ContractError::NotFound { item: StoredItem::Members },
            ),
            Some(v) => res matches Ok(m) && m.deep_view() == v,
        },
{
    match &deps.members {
        None => Err(ContractError::NotFound { item: StoredItem::Members }),
        Some(m) => Ok(m.duplicate()),
    }
}

/// The token ids that `address` has minted; none if it never minted.
pub fn query_user_info(deps: &Store, address: String) -> (res: Result<Vec<String>, ContractError>)
    ensures
        res matches Ok(v) && v.deep_view() == held_tokens(deps@, address@),
{
    match read_user_info(deps, &address) {
        None => {
            let v: Vec<String> = Vec::new();
            assert(v.deep_view() =~= held_tokens(deps@, address@));
            Ok(v)
        },
        Some(v) => Ok(v),
    }
}

/// Answers a query.
pub fn query(deps: &Store, msg: QueryMsg) -> (res: Result<QueryAnswer, ContractError>)
    ensures
        match msg {
            QueryMsg::GetStateInfo {  } => match deps@.config {
                None => res == Err::<QueryAnswer, ContractError>(
                    ContractError::NotFound { item: StoredItem::Config },
                ),
                Some(v) => res matches Ok(QueryAnswer::StateInfo(st)) && st.deep_view() == v,
            },
            QueryMsg::GetWhiteUsers {  } => match deps@.members {
                None => res == Err::<QueryAnswer, ContractError>(
                    ContractError::NotFound { item: StoredItem::Members },
                ),
                Some(v) => res matches Ok(QueryAnswer::WhiteUsers(m)) && m.deep_view() == v,
            },
            QueryMsg::GetUserInfo { address } => res matches Ok(QueryAnswer::UserInfo(t))
                && t.deep_view() == held_tokens(deps@, address@),
        },
{
    match msg {
        QueryMsg::GetStateInfo {  } => match query_state_info(deps) {
            Ok(st) => Ok(QueryAnswer::StateInfo(st)),
            Err(e) => Err(e),
        },
        QueryMsg::GetWhiteUsers {  } => match query_white_users(deps) {
            Ok(m) => Ok(QueryAnswer::WhiteUsers(m)),
            Err(e) => Err(e),
        },
        QueryMsg::GetUserInfo { address } => match query_user_info(deps, address) {
            Ok(t) => Ok(QueryAnswer::UserInfo(t)),
            Err(e) => Err(e),
        },
    }
}

// ---------------------------------------------------------------------------
// Checks of the inputs on which a message is defined
// ---------------------------------------------------------------------------

/// Why a payment of `amount` by `buyer`, reported by `sender`, would be refused, if it would be.
pub fn mint_rejection_of(deps: &Store, sender: &String, buyer: &String, amount: u128) -> (r: Option<
    ContractError,
>)
    ensures
        r == mint_rejection(deps@, sender@, buyer@, amount),
{
    let st = match &deps.config {
        None => {
            return Some(ContractError::NotFound { item: StoredItem::Config });
        },
        Some(st) => st,
    };
    if !st.private_mint && !st.public_mint {
        Some(ContractError::PresaleNotStarted)
    } else if !(st.token_address == *sender) {
        Some(ContractError::WrongContractAddress)
    } else if st.total_supply <= st.count {
        Some(ContractError::SupplyExhausted)
    } else if deps.metadata.is_none() {
        Some(ContractError::NotFound { item: StoredItem::Metadata })
    } else if st.private_mint {
        match &deps.members {
            None => Some(ContractError::NotFound { item: StoredItem::Members }),
            Some(m) => if !contains_address(m, buyer) {
                Some(ContractError::NotWhitelisted)
            } else if amount != st.private_price {
                Some(ContractError::NotExactMoney)
            } else {
                match read_user_info(deps, buyer) {
                    Some(v) => if v.len() as u128 >= st.maximum_count {
                        Some(ContractError::UserLimitReached)
                    } else {
                        None
                    },
                    None => None,
                }
            },
        }
    } else if amount != st.public_price {
        Some(ContractError::NotExactMoney)
    } else {
        None
    }
}

/// Whether a payment of `amount` by `buyer`, reported by `sender`, can be
/// handled without a panic or an endless search for a free slot.
#[verifier::loop_isolation(false)]
#[verifier::spinoff_prover]
pub fn mint_is_defined(deps: &Store, sender: &String, buyer: &String, amount: u128) -> (b: bool)
    ensures
        b == mint_defined(deps@, sender@, buyer@, amount),
{
    let ghost s0 = deps@;
    let st = match &deps.config {
        None => {
            return true;
        },
        Some(st) => st,
    };
    let ghost stv = st.deep_view();
    assert(s0.config == Some(stv));
    if !((st.private_mint || st.public_mint) && st.token_address == *sender && st.count
        < st.total_supply) {
        return true;
    }
    let pool = st.check_minted.len();
    if (pool as u128) < st.total_supply {
        return false;
    }
    let total = st.total_supply as usize;
    let mut free = false;
    let mut i: usize = 0;
    while i < total
        invariant
            total <= st.check_minted@.len(),
            i <= total,
            free == (exists|j: int| 0 <= j < i && #[trigger] st.check_minted@[j]),
        decreases total - i,
    {
        if st.check_minted[i] {
            free = true;
        }
        i = i + 1;
    }
    if !free {
        return false;
    }
    let accepted = if st.private_mint {
        match &deps.members {
            None => false,
            Some(m) => contains_address(m, buyer) && amount == st.private_price,
        }
    } else {
        amount == st.public_price
    };
    assert(accepted == payment_accepted(s0, stv, buyer@, amount));
    if let Some(md) = &deps.metadata {
        let mut i: usize = 0;
        while i < total
            invariant
                total <= st.check_minted@.len(),
                i <= total,
                forall|j: int|
                    0 <= j < i && #[trigger] st.check_minted@[j] ==> j < md@.len() && (accepted
                        ==> md@[j].tokenId is Some),
            decreases total - i,
        {
            if st.check_minted[i] {
                assert(stv.check_minted[i as int]);
                if i >= md.len() {
                    return false;
                }
                assert(s0.metadata->Some_0[i as int] == md@[i as int].deep_view());
                if accepted && md[i].tokenId.is_none() {
                    return false;
                }
            }
            i = i + 1;
        }
        assert forall|j: int|
            0 <= j < st.total_supply && #[trigger] stv.check_minted[j] implies j
            < s0.metadata->Some_0.len() && (payment_accepted(s0, stv, buyer@, amount)
            ==> s0.metadata->Some_0[j].token_id is Some) by {
            assert(st.check_minted@[j]);
        }
    }
    if mint_rejection_of(deps, sender, buyer, amount).is_none() {
        let mut k: usize = 0;
        while k < st.reward_wallet.len()
            invariant
                k <= st.reward_wallet@.len(),
                forall|j: int|
                    0 <= j < k ==> amount * (#[trigger] st.reward_wallet@[j]).portion.0 <= u128::MAX,
            decreases st.reward_wallet@.len() - k,
        {
            if amount.checked_mul(st.reward_wallet[k].portion.0).is_none() {
                assert(stv.reward_wallet[k as int] == st.reward_wallet@[k as int].deep_view());
                return false;
            }
            k = k + 1;
        }
        assert forall|j: int| 0 <= j < stv.reward_wallet.len() implies amount * (
        #[trigger] stv.reward_wallet[j]).portion.0 <= u128::MAX by {
            assert(stv.reward_wallet[j] == st.reward_wallet@[j].deep_view());
        }
    }
    assert(stv.total_supply <= stv.check_minted.len());
    assert(exists|i: int| 0 <= i < stv.total_supply && #[trigger] stv.check_minted[i]);
    true
}

/// Whether `SetRewardWallet` with `wallet` can be handled without overflow.
#[verifier::loop_isolation(false)]
pub fn reward_wallet_is_defined(deps: &Store, env: &Env, wallet: &Vec<Wallet>) -> (b: bool)
    ensures
        b == reward_wallet_defined(deps@, env.message.sender@, wallet.deep_view()),
{
    if check_admin(deps, env).is_some() {
        return true;
    }
    let ghost w = wallet.deep_view();
    let mut sum: u128 = 0;
    let mut i: usize = 0;
    while i < wallet.len()
        invariant
            w == wallet.deep_view(),
            i <= wallet@.len(),
            sum == portion_total(w.take(i as int)),
        decreases wallet@.len() - i,
    {
        proof {
            assert(w.take(i + 1).drop_last() =~= w.take(i as int));
        }
        match sum.checked_add(wallet[i].portion.0) {
            None => {
                proof {
                    lemma_portion_total_prefix(w, i + 1);
                }
                return false;
            },
            Some(t) => {
                sum = t;
            },
        }
        i = i + 1;
    }
    assert(w.take(i as int) =~= w);
    true
}

/// Whether `msg` from `env` can be handled without a panic or an endless loop.
pub fn handle_is_defined(deps: &Store, env: &Env, msg: &HandleMsg) -> (b: bool)
    ensures
        b == handle_defined(deps@, env.message.sender@, *msg),
{
    match msg {
        HandleMsg::Receive { sender, amount, .. } => mint_is_defined(
            deps,
            &env.message.sender,
            sender,
            *amount,
        ),
        HandleMsg::SetRewardWallet { wallet } => reward_wallet_is_defined(deps, env, wallet),
        _ => true,
    }
}

} // verus!
