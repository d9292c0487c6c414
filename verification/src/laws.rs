use vstd::prelude::*;

use crate::contract::{
    handle_defined, handle_post, init_post, mint_post, randomness_refused, held_tokens, is_transfer_message, lemma_minted_slot_is_free,
    mint_post_at, mint_rejection, mint_start_ok, minted_slot, payment_accepted,
    portion_total, sale_messages,
};
use crate::decimal::{share_of, DECIMAL_FRACTIONAL};
use crate::env::{HandleResponse, InitResponse, OutMsg};
use crate::error::ContractError;
use crate::msg::{HandleMsg, InitMsg, MetadataMsgView, Wallet, WalletView};
use crate::state::{StateView, StoreView};

verus! {

/// Every message but a payment, sent to an instantiated contract by anyone but
/// the admin, is refused as unauthorized and changes nothing (a request to open
/// both sales at once is refused for that reason first).
pub proof fn law_only_admin_configures(
    old: StoreView,
    new: StoreView,
    sender: Seq<char>,
    msg: HandleMsg,
    res: Result<HandleResponse, ContractError>,
)
    requires
        handle_post(old, new, sender, msg, res),
        old.config is Some,
        sender != old.config->Some_0.admin,
        !(msg is Receive),
        !(msg matches HandleMsg::SetSaleFlag { private_mint, public_mint } && private_mint
            && public_mint),
    ensures
        res == Err::<HandleResponse, ContractError>(ContractError::Unauthorized),
        new == old,
{
}

/// A refused message leaves the storage as it was.
pub proof fn law_refusal_changes_nothing(
    old: StoreView,
    new: StoreView,
    sender: Seq<char>,
    msg: HandleMsg,
    res: Result<HandleResponse, ContractError>,
)
    requires
        handle_post(old, new, sender, msg, res),
        res is Err,
    ensures
        new == old,
{
    if let HandleMsg::Receive { sender: buyer, amount, .. } = msg {
        let start = sale_draw(old, new, sender, buyer@, amount, res);
    }
}

/// The private and the public sale are never open at once: no message opens
/// both when they were not both open before.
pub proof fn law_sales_never_both_open(
    old: StoreView,
    new: StoreView,
    sender: Seq<char>,
    msg: HandleMsg,
    res: Result<HandleResponse, ContractError>,
)
    requires
        handle_post(old, new, sender, msg, res),
        old.config matches Some(st) ==> !(st.private_mint && st.public_mint),
    ensures
        new.config matches Some(st) ==> !(st.private_mint && st.public_mint),
{
    if let HandleMsg::Receive { sender: buyer, amount, .. } = msg {
        let start = sale_draw(old, new, sender, buyer@, amount, res);
    }
}

/// No message changes the counter of the configuration, nor creates or
/// removes the configuration.
pub proof fn law_count_never_changes(
    old: StoreView,
    new: StoreView,
    sender: Seq<char>,
    msg: HandleMsg,
    res: Result<HandleResponse, ContractError>,
)
    requires
        handle_post(old, new, sender, msg, res),
    ensures
        old.config is Some <==> new.config is Some,
        old.config is Some ==> new.config->Some_0.count == old.config->Some_0.count,
{
    if let HandleMsg::Receive { sender: buyer, amount, .. } = msg {
        let start = sale_draw(old, new, sender, buyer@, amount, res);
    }
}

/// A slot once minted stays minted: no message marks a slot as free again,
/// and the pool of flags keeps its length.
pub proof fn law_minted_slots_stay_minted(
    old: StoreView,
    new: StoreView,
    sender: Seq<char>,
    msg: HandleMsg,
    res: Result<HandleResponse, ContractError>,
)
    requires
        handle_defined(old, sender, msg),
        handle_post(old, new, sender, msg, res),
        old.config is Some,
    ensures
        new.config is Some,
        new.config->Some_0.check_minted.len() == old.config->Some_0.check_minted.len(),
        forall|i: int|
            0 <= i < old.config->Some_0.check_minted.len() && #[trigger] new.config->Some_0.check_minted[i]
                ==> old.config->Some_0.check_minted[i],
{
    if let HandleMsg::Receive { sender: buyer, amount, .. } = msg {
        let start = sale_draw(old, new, sender, buyer@, amount, res);
        if !randomness_refused(old, new, sender, res) && mint_rejection(old, sender, buyer@, amount)
            is None {
            let st = old.config->Some_0;
            lemma_minted_slot_is_free(st.check_minted, st.total_supply as int, start);
        }
    }
}

/// After reward wallets are accepted, their portions add up to exactly one.
pub proof fn law_reward_portions_add_up_to_one(
    old: StoreView,
    new: StoreView,
    sender: Seq<char>,
    wallet: Vec<Wallet>,
    res: Result<HandleResponse, ContractError>,
)
    requires
        handle_post(old, new, sender, HandleMsg::SetRewardWallet { wallet }, res),
        res is Ok,
    ensures
        new.config is Some,
        new.config->Some_0.reward_wallet == wallet.deep_view(),
        portion_total(new.config->Some_0.reward_wallet) == DECIMAL_FRACTIONAL,
{
}

/// `AddWhiteUser` never puts an address on the whitelist twice.
pub proof fn law_whitelist_stays_distinct(
    old: StoreView,
    new: StoreView,
    sender: Seq<char>,
    member: String,
    res: Result<HandleResponse, ContractError>,
)
    requires
        handle_post(old, new, sender, HandleMsg::AddWhiteUser { member }, res),
        old.members matches Some(m) && m.no_duplicates(),
    ensures
        new.members matches Some(m) && m.no_duplicates(),
{
    if res is Ok {
        let m = old.members->Some_0;
        let m2 = new.members->Some_0;
        assert(m2 == m.push(member@));
        assert forall|i: int, j: int| 0 <= i < m2.len() && 0 <= j < m2.len() && i != j implies m2[i]
            != m2[j] by {
            if i == m.len() {
                assert(m[j] == m2[j]);
            } else if j == m.len() {
                assert(m[i] == m2[i]);
            }
        }
    }
}

/// The draw of a sale whose outcome `handle_post` describes, where a draw was made.
proof fn sale_draw(
    old: StoreView,
    new: StoreView,
    sender: Seq<char>,
    buyer: Seq<char>,
    amount: u128,
    res: Result<HandleResponse, ContractError>,
) -> (start: int)
    requires
        mint_post(old, new, sender, buyer, amount, res),
    ensures
        !randomness_refused(old, new, sender, res) ==> mint_start_ok(old, start) && mint_post_at(
            old,
            new,
            sender,
            buyer,
            amount,
            start,
            res,
        ),
{
    if randomness_refused(old, new, sender, res) {
        0
    } else {
        choose|start: int|
            mint_start_ok(old, start) && #[trigger] mint_post_at(
                old,
                new,
                sender,
                buyer,
                amount,
                start,
                res,
            )
    }
}

/// A sale that goes through mints exactly one slot: a free slot below the
/// supply, with a token id.  The slot is marked as minted, the buyer's token
/// ids grow by that token id, and no other buyer's token ids change.
pub proof fn law_sale_mints_one_free_slot(
    old: StoreView,
    new: StoreView,
    sender: Seq<char>,
    buyer: String,
    from: String,
    amount: u128,
    bytes: Vec<u8>,
    res: Result<HandleResponse, ContractError>,
)
    requires
        handle_defined(old, sender, HandleMsg::Receive { sender: buyer, from, amount, msg: bytes }),
        handle_post(old, new, sender, HandleMsg::Receive { sender: buyer, from, amount, msg: bytes }, res),
        res is Ok,
    ensures
        old.config is Some && new.config is Some && old.metadata is Some,
        exists|slot: int|
            #![trigger old.config->Some_0.check_minted[slot]]
            {
                &&& 0 <= slot < old.config->Some_0.total_supply
                &&& slot < old.metadata->Some_0.len()
                &&& old.config->Some_0.check_minted[slot]
                &&& new.config->Some_0.check_minted == old.config->Some_0.check_minted.update(
                    slot,
                    false,
                )
                &&& old.metadata->Some_0[slot].token_id is Some
                &&& new.users.contains_key(buyer@)
                &&& new.users[buyer@] == held_tokens(old, buyer@).push(
                    old.metadata->Some_0[slot].token_id->Some_0,
                )
            },
        forall|a: Seq<char>|
            a != buyer@ ==> (#[trigger] new.users.contains_key(a) == old.users.contains_key(a)
                && (old.users.contains_key(a) ==> new.users[a] == old.users[a])),
{
    let start = sale_draw(old, new, sender, buyer@, amount, res);
    let st = old.config->Some_0;
    let md = old.metadata->Some_0;
    lemma_minted_slot_is_free(st.check_minted, st.total_supply as int, start);
    let slot = minted_slot(st.check_minted, st.total_supply as int, start);
    assert(payment_accepted(old, st, buyer@, amount));
    assert(st.check_minted[slot]);
}

/// In the private sale, a buyer ends up with at most the maximum number of
/// tokens, except that a buyer's first token is always allowed.
pub proof fn law_private_sale_cap(
    old: StoreView,
    new: StoreView,
    sender: Seq<char>,
    buyer: String,
    from: String,
    amount: u128,
    bytes: Vec<u8>,
    res: Result<HandleResponse, ContractError>,
)
    requires
        handle_post(old, new, sender, HandleMsg::Receive { sender: buyer, from, amount, msg: bytes }, res),
        res is Ok,
        old.config matches Some(st) && st.private_mint,
    ensures
        new.users.contains_key(buyer@),
        new.users[buyer@].len() == 1 || new.users[buyer@].len() <= old.config->Some_0.maximum_count,
{
    let start = sale_draw(old, new, sender, buyer@, amount, res);
}

/// A sale goes through only for a payment reported by the configured token
/// contract while a sale is open: in the private sale by a whitelisted buyer
/// paying exactly the private price, in the public sale paying exactly the
/// public price.
pub proof fn law_sale_is_paid_in_full(
    old: StoreView,
    new: StoreView,
    sender: Seq<char>,
    buyer: String,
    from: String,
    amount: u128,
    bytes: Vec<u8>,
    res: Result<HandleResponse, ContractError>,
)
    requires
        handle_post(old, new, sender, HandleMsg::Receive { sender: buyer, from, amount, msg: bytes }, res),
        res is Ok,
    ensures
        old.config matches Some(st) && {
            &&& st.private_mint || st.public_mint
            &&& st.token_address == sender
            &&& st.count < st.total_supply
            &&& payment_accepted(old, st, buyer@, amount)
        },
{
    let start = sale_draw(old, new, sender, buyer@, amount, res);
}

/// What the transfers among `msgs` pay out in total.
pub open spec fn payout(msgs: Seq<OutMsg>) -> int
    decreases msgs.len(),
{
    if msgs.len() == 0 {
        0
    } else {
        payout(msgs.drop_last()) + match msgs.last() {
            OutMsg::Transfer { amount, .. } => amount as int,
            _ => 0,
        }
    }
}

/// The shares of `amount` that the wallets receive, in total.
pub open spec fn shares_total(amount: u128, wallets: Seq<WalletView>) -> int
    decreases wallets.len(),
{
    if wallets.len() == 0 {
        0
    } else {
        shares_total(amount, wallets.drop_last()) + share_of(amount, wallets.last().portion)
    }
}

/// Rounded-down shares add up to no more than the unrounded product.
proof fn lemma_shares_bounded(amount: u128, wallets: Seq<WalletView>)
    ensures
        shares_total(amount, wallets) * DECIMAL_FRACTIONAL <= amount * portion_total(wallets),
    decreases wallets.len(),
{
    if wallets.len() > 0 {
        let rest = wallets.drop_last();
        let p = wallets.last().portion.0;
        lemma_shares_bounded(amount, rest);
        let f = DECIMAL_FRACTIONAL as int;
        let x = amount * p;
        assert((x / f) * f <= x) by (nonlinear_arith)
            requires
                f > 0,
                x >= 0,
        ;
        assert(amount * portion_total(wallets) == amount * portion_total(rest) + amount * p) by (
        nonlinear_arith)
            requires
                portion_total(wallets) == portion_total(rest) + p,
        ;
        assert(shares_total(amount, wallets) * f == shares_total(amount, rest) * f + (x / f) * f)
            by (nonlinear_arith)
            requires
                shares_total(amount, wallets) == shares_total(amount, rest) + x / f,
        ;
    }
}

/// The transfers among the first `n + 1` messages of a sale pay the shares of
/// the first `n` wallets.
proof fn lemma_payout_prefix(
    msgs: Seq<OutMsg>,
    st: StateView,
    meta: MetadataMsgView,
    buyer: Seq<char>,
    amount: u128,
    n: int,
)
    requires
        sale_messages(msgs, st, meta, buyer, amount),
        0 <= n <= st.reward_wallet.len(),
    ensures
        payout(msgs.take(n + 1)) == shares_total(amount, st.reward_wallet.take(n)),
    decreases n,
{
    if n == 0 {
        assert(msgs.take(1).drop_last() =~= Seq::<OutMsg>::empty());
        assert(msgs.take(1).last() == msgs[0]);
        assert(msgs[0] is MintNft);
        assert(payout(Seq::<OutMsg>::empty()) == 0);
        assert(st.reward_wallet.take(0) =~= Seq::<WalletView>::empty());
    } else {
        assert(msgs.take(n + 1).last() == msgs[n]);
        assert(st.reward_wallet.take(n).last() == st.reward_wallet[n - 1]);
        lemma_payout_prefix(msgs, st, meta, buyer, amount, n - 1);
        assert(msgs.take(n + 1).drop_last() =~= msgs.take(n));
        assert(st.reward_wallet.take(n).drop_last() =~= st.reward_wallet.take(n - 1));
        let w = st.reward_wallet[n - 1];
        assert(is_transfer_message(msgs[n], st, w, amount));
    }
}

/// When the portions of the reward wallets add up to one, the transfers of a
/// sale pay out no more than the buyer paid.
pub proof fn law_payout_within_payment(
    old: StoreView,
    new: StoreView,
    sender: Seq<char>,
    buyer: String,
    from: String,
    amount: u128,
    bytes: Vec<u8>,
    res: Result<HandleResponse, ContractError>,
)
    requires
        handle_post(old, new, sender, HandleMsg::Receive { sender: buyer, from, amount, msg: bytes }, res),
        res is Ok,
        old.config matches Some(st) && portion_total(st.reward_wallet) == DECIMAL_FRACTIONAL,
    ensures
        payout(res->Ok_0.messages@) <= amount,
{
    let start = sale_draw(old, new, sender, buyer@, amount, res);
    let st = old.config->Some_0;
    let md = old.metadata->Some_0;
    let slot = minted_slot(st.check_minted, st.total_supply as int, start);
    let msgs = res->Ok_0.messages@;
    let w = st.reward_wallet;
    lemma_payout_prefix(msgs, st, md[slot], buyer@, amount, w.len() as int);
    assert(msgs.take(w.len() as int + 1) =~= msgs);
    assert(w.take(w.len() as int) =~= w);
    lemma_shares_bounded(amount, w);
    let f = DECIMAL_FRACTIONAL as int;
    let t = shares_total(amount, w);
    assert(t <= amount) by (nonlinear_arith)
        requires
            t * f <= amount * f,
            f > 0,
    ;
}

/// While both sales are closed, every payment is refused and changes nothing.
pub proof fn law_no_sale_while_closed(
    old: StoreView,
    new: StoreView,
    sender: Seq<char>,
    buyer: String,
    from: String,
    amount: u128,
    bytes: Vec<u8>,
    res: Result<HandleResponse, ContractError>,
)
    requires
        handle_post(old, new, sender, HandleMsg::Receive { sender: buyer, from, amount, msg: bytes }, res),
        old.config matches Some(st) && !st.private_mint && !st.public_mint,
    ensures
        res == Err::<HandleResponse, ContractError>(ContractError::PresaleNotStarted),
        new == old,
{
    let start = sale_draw(old, new, sender, buyer@, amount, res);
}

/// The number of free slots among the first `n` of `check`.
pub open spec fn free_slots(check: Seq<bool>, n: int) -> nat
    decreases n,
{
    if n <= 0 {
        0
    } else {
        free_slots(check, n - 1) + if check[n - 1] {
            1nat
        } else {
            0nat
        }
    }
}

/// Pools that agree on their first `n` flags have as many free slots there.
proof fn lemma_free_slots_agree(a: Seq<bool>, b: Seq<bool>, n: int)
    requires
        forall|i: int| 0 <= i < n ==> a[i] == b[i],
    ensures
        free_slots(a, n) == free_slots(b, n),
    decreases n,
{
    if n > 0 {
        lemma_free_slots_agree(a, b, n - 1);
    }
}

/// Marking one free slot below `n` as minted takes one free slot away.
proof fn lemma_free_slots_mint(check: Seq<bool>, n: int, slot: int)
    requires
        0 <= slot < n <= check.len(),
        check[slot],
    ensures
        free_slots(check.update(slot, false), n) + 1 == free_slots(check, n),
    decreases n,
{
    let c2 = check.update(slot, false);
    if slot == n - 1 {
        lemma_free_slots_agree(c2, check, n - 1);
    } else {
        lemma_free_slots_mint(check, n - 1, slot);
    }
}

/// Every sale that goes through takes exactly one free slot of the supply,
/// and the supply stays as it was: after as many sales as there were free
/// slots, none is left.
pub proof fn law_sale_consumes_one_free_slot(
    old: StoreView,
    new: StoreView,
    sender: Seq<char>,
    buyer: String,
    from: String,
    amount: u128,
    bytes: Vec<u8>,
    res: Result<HandleResponse, ContractError>,
)
    requires
        handle_defined(old, sender, HandleMsg::Receive { sender: buyer, from, amount, msg: bytes }),
        handle_post(old, new, sender, HandleMsg::Receive { sender: buyer, from, amount, msg: bytes }, res),
        res is Ok,
    ensures
        old.config is Some && new.config is Some,
        new.config->Some_0.total_supply == old.config->Some_0.total_supply,
        free_slots(new.config->Some_0.check_minted, old.config->Some_0.total_supply as int) + 1
            == free_slots(old.config->Some_0.check_minted, old.config->Some_0.total_supply as int),
{
    let start = sale_draw(old, new, sender, buyer@, amount, res);
    let st = old.config->Some_0;
    lemma_minted_slot_is_free(st.check_minted, st.total_supply as int, start);
    let slot = minted_slot(st.check_minted, st.total_supply as int, start);
    lemma_free_slots_mint(st.check_minted, st.total_supply as int, slot);
}

/// A run of handled messages: `stores[i + 1]` is what handling `msgs[i]`, sent
/// by `senders[i]`, makes of `stores[i]`, with the answer `results[i]`.
pub open spec fn is_run(
    stores: Seq<StoreView>,
    senders: Seq<Seq<char>>,
    msgs: Seq<HandleMsg>,
    results: Seq<Result<HandleResponse, ContractError>>,
) -> bool {
    &&& stores.len() == msgs.len() + 1
    &&& senders.len() == msgs.len()
    &&& results.len() == msgs.len()
    &&& forall|i: int|
        #![trigger msgs[i]]
        0 <= i < msgs.len() ==> handle_defined(stores[i], senders[i], msgs[i]) && handle_post(
            stores[i],
            stores[i + 1],
            senders[i],
            msgs[i],
            results[i],
        )
}

/// A step of a run, taken out of it.
proof fn lemma_run_step(
    stores: Seq<StoreView>,
    senders: Seq<Seq<char>>,
    msgs: Seq<HandleMsg>,
    results: Seq<Result<HandleResponse, ContractError>>,
    i: int,
)
    requires
        is_run(stores, senders, msgs, results),
        0 <= i < msgs.len(),
    ensures
        handle_defined(stores[i], senders[i], msgs[i]),
        handle_post(stores[i], stores[i + 1], senders[i], msgs[i], results[i]),
{
    assert(msgs[i] == msgs[i]);
}

/// Over any run of messages, the private and the public sale are never open
/// at once, provided they were not at its start (`init` opens neither).
pub proof fn law_run_sales_never_both_open(
    stores: Seq<StoreView>,
    senders: Seq<Seq<char>>,
    msgs: Seq<HandleMsg>,
    results: Seq<Result<HandleResponse, ContractError>>,
)
    requires
        is_run(stores, senders, msgs, results),
        stores[0].config matches Some(st) ==> !(st.private_mint && st.public_mint),
    ensures
        forall|n: int|
            0 <= n < stores.len() ==> (#[trigger] stores[n].config matches Some(st) ==> !(
            st.private_mint && st.public_mint)),
{
    assert forall|n: int| 0 <= n < stores.len() implies (#[trigger] stores[n].config matches Some(
        st,
    ) ==> !(st.private_mint && st.public_mint)) by {
        lemma_run_sales_closed_upto(stores, senders, msgs, results, n);
    }
}

proof fn lemma_run_sales_closed_upto(
    stores: Seq<StoreView>,
    senders: Seq<Seq<char>>,
    msgs: Seq<HandleMsg>,
    results: Seq<Result<HandleResponse, ContractError>>,
    n: int,
)
    requires
        is_run(stores, senders, msgs, results),
        stores[0].config matches Some(st) ==> !(st.private_mint && st.public_mint),
        0 <= n < stores.len(),
    ensures
        stores[n].config matches Some(st) ==> !(st.private_mint && st.public_mint),
    decreases n,
{
    if n > 0 {
        lemma_run_sales_closed_upto(stores, senders, msgs, results, n - 1);
        lemma_run_step(stores, senders, msgs, results, n - 1);
        law_sales_never_both_open(stores[n - 1], stores[n], senders[n - 1], msgs[n - 1], results[n - 1]);
    }
}

/// The sale is the only message that changes the pool of flags: a sale that
/// goes through marks one free slot below the supply as minted, and every
/// other message, and every refusal, leaves the pool as it was.
proof fn lemma_step_pool(
    old: StoreView,
    new: StoreView,
    sender: Seq<char>,
    msg: HandleMsg,
    res: Result<HandleResponse, ContractError>,
)
    requires
        handle_defined(old, sender, msg),
        handle_post(old, new, sender, msg, res),
        old.config is Some,
    ensures
        new.config is Some,
        if msg is Receive && res is Ok {
            exists|slot: int|
                0 <= slot < old.config->Some_0.check_minted.len() && #[trigger] old.config->Some_0.check_minted[slot]
                    && new.config->Some_0.check_minted == old.config->Some_0.check_minted.update(
                    slot,
                    false,
                )
        } else {
            new.config->Some_0.check_minted == old.config->Some_0.check_minted
        },
{
    if let HandleMsg::Receive { sender: buyer, amount, .. } = msg {
        let start = sale_draw(old, new, sender, buyer@, amount, res);
        if res is Ok {
            let st = old.config->Some_0;
            lemma_minted_slot_is_free(st.check_minted, st.total_supply as int, start);
            let slot = minted_slot(st.check_minted, st.total_supply as int, start);
            assert(st.check_minted[slot]);
        }
    }
}

/// The number of sales that went through among the first `n` messages of a run.
pub open spec fn sales_made(msgs: Seq<HandleMsg>, results: Seq<Result<HandleResponse, ContractError>>, n: int) -> nat
    decreases n,
{
    if n <= 0 {
        0
    } else {
        sales_made(msgs, results, n - 1) + if msgs[n - 1] is Receive && results[n - 1] is Ok {
            1nat
        } else {
            0nat
        }
    }
}

/// After the first `n` messages of a run, the pool of flags has its length,
/// no slot free now was minted at the start, and it has as many free slots
/// fewer as sales went through.
pub open spec fn pool_accounted(
    stores: Seq<StoreView>,
    msgs: Seq<HandleMsg>,
    results: Seq<Result<HandleResponse, ContractError>>,
    n: int,
) -> bool {
    let pool0 = stores[0].config->Some_0.check_minted;
    &&& stores[n].config is Some
    &&& stores[n].config->Some_0.check_minted.len() == pool0.len()
    &&& forall|j: int|
        0 <= j < pool0.len() && #[trigger] stores[n].config->Some_0.check_minted[j] ==> pool0[j]
    &&& free_slots(stores[n].config->Some_0.check_minted, pool0.len() as int) + sales_made(
        msgs,
        results,
        n,
    ) == free_slots(pool0, pool0.len() as int)
}

/// Over any run from an instantiated contract, no slot is ever marked free
/// again and every sale that goes through takes one free slot: after `k`
/// sales the pool has exactly `k` free slots fewer, so no slot is minted twice.
pub proof fn law_run_no_slot_minted_twice(
    stores: Seq<StoreView>,
    senders: Seq<Seq<char>>,
    msgs: Seq<HandleMsg>,
    results: Seq<Result<HandleResponse, ContractError>>,
)
    requires
        is_run(stores, senders, msgs, results),
        stores[0].config is Some,
    ensures
        forall|n: int|
            0 <= n < stores.len() ==> #[trigger] pool_accounted(stores, msgs, results, n),
{
    assert forall|n: int| 0 <= n < stores.len() implies #[trigger] pool_accounted(
        stores,
        msgs,
        results,
        n,
    ) by {
        lemma_run_pool_upto(stores, senders, msgs, results, n);
    }
}

proof fn lemma_run_pool_upto(
    stores: Seq<StoreView>,
    senders: Seq<Seq<char>>,
    msgs: Seq<HandleMsg>,
    results: Seq<Result<HandleResponse, ContractError>>,
    n: int,
)
    requires
        is_run(stores, senders, msgs, results),
        stores[0].config is Some,
        0 <= n < stores.len(),
    ensures
        pool_accounted(stores, msgs, results, n),
    decreases n,
{
    if n > 0 {
        lemma_run_pool_upto(stores, senders, msgs, results, n - 1);
        lemma_run_step(stores, senders, msgs, results, n - 1);
        let old = stores[n - 1];
        let new = stores[n];
        lemma_step_pool(old, new, senders[n - 1], msgs[n - 1], results[n - 1]);
        let pool0 = stores[0].config->Some_0.check_minted;
        let c = old.config->Some_0.check_minted;
        let c2 = new.config->Some_0.check_minted;
        if msgs[n - 1] is Receive && results[n - 1] is Ok {
            let slot = choose|slot: int|
                0 <= slot < c.len() && #[trigger] c[slot] && c2 == c.update(slot, false);
            lemma_free_slots_mint(c, c.len() as int, slot);
            assert forall|j: int| 0 <= j < pool0.len() && #[trigger] c2[j] implies pool0[j] by {
                assert(c[j]);
            }
        }
    }
}

/// Over any run in which no change of the whitelist goes through, the
/// whitelist stays as it was at the start of the run.
pub proof fn law_run_whitelist_unchanged(
    stores: Seq<StoreView>,
    senders: Seq<Seq<char>>,
    msgs: Seq<HandleMsg>,
    results: Seq<Result<HandleResponse, ContractError>>,
)
    requires
        is_run(stores, senders, msgs, results),
        forall|i: int|
            0 <= i < msgs.len() ==> !((#[trigger] msgs[i] is SetWhiteUsers || msgs[i] is AddWhiteUser)
                && results[i] is Ok),
    ensures
        forall|n: int| 0 <= n < stores.len() ==> #[trigger] stores[n].members == stores[0].members,
{
    assert forall|n: int| 0 <= n < stores.len() implies #[trigger] stores[n].members
        == stores[0].members by {
        lemma_run_members_upto(stores, senders, msgs, results, n);
    }
}

proof fn lemma_run_members_upto(
    stores: Seq<StoreView>,
    senders: Seq<Seq<char>>,
    msgs: Seq<HandleMsg>,
    results: Seq<Result<HandleResponse, ContractError>>,
    n: int,
)
    requires
        is_run(stores, senders, msgs, results),
        forall|i: int|
            0 <= i < msgs.len() ==> !((#[trigger] msgs[i] is SetWhiteUsers || msgs[i] is AddWhiteUser)
                && results[i] is Ok),
        0 <= n < stores.len(),
    ensures
        stores[n].members == stores[0].members,
    decreases n,
{
    if n > 0 {
        lemma_run_members_upto(stores, senders, msgs, results, n - 1);
        lemma_run_step(stores, senders, msgs, results, n - 1);
        let old = stores[n - 1];
        let new = stores[n];
        let msg = msgs[n - 1];
        let res = results[n - 1];
        assert(!((msg is SetWhiteUsers || msg is AddWhiteUser) && res is Ok));
        if let HandleMsg::Receive { sender: buyer, amount, .. } = msg {
            let start = sale_draw(old, new, senders[n - 1], buyer@, amount, res);
        }
    }
}

/// In the private sale a payment goes through only at exactly the private
/// price: with the private sale open and any other amount, the sale is
/// refused as not exact money once the earlier checks (token contract,
/// supply, metadata, whitelist) pass, and in any case refused without change.
pub proof fn law_private_sale_exact_price(
    old: StoreView,
    new: StoreView,
    sender: Seq<char>,
    buyer: Seq<char>,
    amount: u128,
    start: int,
    res: Result<HandleResponse, ContractError>,
)
    requires
        mint_post_at(old, new, sender, buyer, amount, start, res),
        old.config matches Some(st) && st.private_mint && amount != st.private_price,
    ensures
        res is Err,
        new == old,
        ({
            let st = old.config->Some_0;
            (st.token_address == sender && st.count < st.total_supply && old.metadata is Some
                && old.members is Some && old.members->Some_0.contains(buyer)) ==> res
                == Err::<HandleResponse, ContractError>(ContractError::NotExactMoney)
        }),
{
}

/// In the public sale a payment goes through only at exactly the public
/// price: with only the public sale open and any other amount, the sale is
/// refused as not exact money once the earlier checks pass, and in any case
/// refused without change.
pub proof fn law_public_sale_exact_price(
    old: StoreView,
    new: StoreView,
    sender: Seq<char>,
    buyer: Seq<char>,
    amount: u128,
    start: int,
    res: Result<HandleResponse, ContractError>,
)
    requires
        mint_post_at(old, new, sender, buyer, amount, start, res),
        old.config matches Some(st) && !st.private_mint && amount != st.public_price,
    ensures
        res is Err,
        new == old,
        ({
            let st = old.config->Some_0;
            (st.public_mint && st.token_address == sender && st.count < st.total_supply
                && old.metadata is Some) ==> res == Err::<HandleResponse, ContractError>(
                ContractError::NotExactMoney,
            )
        }),
{
}

/// A sale handled through `handle` at any amount other than the price of the
/// open sale is refused and changes nothing.
pub proof fn law_sale_price_is_exact(
    old: StoreView,
    new: StoreView,
    sender: Seq<char>,
    buyer: String,
    from: String,
    amount: u128,
    bytes: Vec<u8>,
    res: Result<HandleResponse, ContractError>,
)
    requires
        handle_post(old, new, sender, HandleMsg::Receive { sender: buyer, from, amount, msg: bytes }, res),
        old.config matches Some(st) && (if st.private_mint {
            amount != st.private_price
        } else {
            amount != st.public_price
        }),
    ensures
        res is Err,
        new == old,
{
    let start = sale_draw(old, new, sender, buyer@, amount, res);
}

/// Instantiation stores each configuration field from the message field of
/// the same name, with a zero counter, both sales closed and the NFT contract
/// address `"nft_address"`; it stores the message's whitelist and an empty
/// metadata pool, keeps the buyers' records, and answers without messages.
pub proof fn law_init_stores_message(
    old: StoreView,
    new: StoreView,
    msg: InitMsg,
    res: Result<InitResponse, ContractError>,
)
    requires
        init_post(old, new, msg, res),
    ensures
        res is Ok,
        res->Ok_0.messages@.len() == 0,
        new.config is Some,
        new.config->Some_0.count == 0,
        new.config->Some_0.total_supply == msg.total_supply,
        new.config->Some_0.admin == msg.admin@,
        new.config->Some_0.maximum_count == msg.maximum_count,
        new.config->Some_0.public_price == msg.public_price,
        new.config->Some_0.private_price == msg.private_price,
        new.config->Some_0.reward_wallet == msg.reward_wallet.deep_view(),
        !new.config->Some_0.public_mint,
        !new.config->Some_0.private_mint,
        new.config->Some_0.nft_address == "nft_address"@,
        new.config->Some_0.nft_contract_hash == msg.nft_contract_hash@,
        new.config->Some_0.token_address == msg.token_address@,
        new.config->Some_0.token_contract_hash == msg.token_contract_hash@,
        new.config->Some_0.check_minted == msg.check_minted@,
        new.members == Some(msg.white_members.deep_view()),
        new.metadata == Some(Seq::<MetadataMsgView>::empty()),
        new.users == old.users,
{
}

/// The admin's `SetSaleFlag` succeeds for every pair of flags that are not
/// both true, and the stored flags are then exactly the requested ones, the
/// rest of the storage unchanged; a request for both is refused.
pub proof fn law_sale_flags_are_set(
    old: StoreView,
    new: StoreView,
    sender: Seq<char>,
    private_mint: bool,
    public_mint: bool,
    res: Result<HandleResponse, ContractError>,
)
    requires
        handle_post(old, new, sender, HandleMsg::SetSaleFlag { private_mint, public_mint }, res),
        old.config matches Some(st) && st.admin == sender,
    ensures
        private_mint && public_mint ==> res == Err::<HandleResponse, ContractError>(
            ContractError::BothSaleFlags,
        ) && new == old,
        !(private_mint && public_mint) ==> {
            &&& res is Ok
            &&& new.config is Some
            &&& new.config->Some_0.private_mint == private_mint
            &&& new.config->Some_0.public_mint == public_mint
            &&& new.config->Some_0.admin == old.config->Some_0.admin
            &&& new.config->Some_0.check_minted == old.config->Some_0.check_minted
            &&& new.config->Some_0.public_price == old.config->Some_0.public_price
            &&& new.config->Some_0.private_price == old.config->Some_0.private_price
            &&& new.config->Some_0.total_supply == old.config->Some_0.total_supply
            &&& new.members == old.members
            &&& new.metadata == old.metadata
            &&& new.users == old.users
        },
{
}

/// The admin's `SetRewardWallet` is accepted exactly when the portions add up
/// to one, and then stores exactly the given wallets; otherwise it is refused
/// without change.
pub proof fn law_reward_wallet_accepted_iff_one(
    old: StoreView,
    new: StoreView,
    sender: Seq<char>,
    wallet: Vec<Wallet>,
    res: Result<HandleResponse, ContractError>,
)
    requires
        handle_post(old, new, sender, HandleMsg::SetRewardWallet { wallet }, res),
        old.config matches Some(st) && st.admin == sender,
    ensures
        res is Ok <==> portion_total(wallet.deep_view()) == DECIMAL_FRACTIONAL,
        res is Ok ==> new.config is Some && new.config->Some_0.reward_wallet == wallet.deep_view()
            && new.config->Some_0.admin == old.config->Some_0.admin && new.members == old.members
            && new.metadata == old.metadata && new.users == old.users,
        res is Err ==> res == Err::<HandleResponse, ContractError>(ContractError::PortionSumNotOne)
            && new == old,
{
}

/// Each configuration message from the admin succeeds and replaces exactly
/// the fields it names by the message's values; every other field of the
/// configuration, the whitelist, the metadata pool and the buyers' records
/// stay as they were.
pub proof fn law_config_messages_set_their_fields(
    old: StoreView,
    new: StoreView,
    sender: Seq<char>,
    msg: HandleMsg,
    res: Result<HandleResponse, ContractError>,
)
    requires
        handle_post(old, new, sender, msg, res),
        old.config matches Some(st) && st.admin == sender,
        msg is SetTokenAddres || msg is SetNftAddress || msg is SetPrice || msg is SetTotalSupply
            || msg is SetMaximumNft || msg is ChangeAdmin,
    ensures
        res is Ok,
        new.members == old.members,
        new.metadata == old.metadata,
        new.users == old.users,
        new.config is Some,
        ({
            let a = old.config->Some_0;
            let b = new.config->Some_0;
            &&& b.count == a.count
            &&& b.reward_wallet == a.reward_wallet
            &&& b.public_mint == a.public_mint
            &&& b.private_mint == a.private_mint
            &&& b.check_minted == a.check_minted
            &&& match msg {
                HandleMsg::SetTokenAddres { token_address, token_contract_hash } => {
                    &&& b.token_address == token_address@
                    &&& b.token_contract_hash == token_contract_hash@
                    &&& b.nft_address == a.nft_address
                    &&& b.nft_contract_hash == a.nft_contract_hash
                    &&& b.admin == a.admin && b.total_supply == a.total_supply
                    &&& b.maximum_count == a.maximum_count
                    &&& b.public_price == a.public_price && b.private_price == a.private_price
                },
                HandleMsg::SetNftAddress { nft_address, nft_contract_hash } => {
                    &&& b.nft_address == nft_address@
                    &&& b.nft_contract_hash == nft_contract_hash@
                    &&& b.token_address == a.token_address
                    &&& b.token_contract_hash == a.token_contract_hash
                    &&& b.admin == a.admin && b.total_supply == a.total_supply
                    &&& b.maximum_count == a.maximum_count
                    &&& b.public_price == a.public_price && b.private_price == a.private_price
                },
                HandleMsg::SetPrice { public_price, private_price } => {
                    &&& b.public_price == public_price && b.private_price == private_price
                    &&& b.token_address == a.token_address && b.nft_address == a.nft_address
                    &&& b.token_contract_hash == a.token_contract_hash
                    &&& b.nft_contract_hash == a.nft_contract_hash
                    &&& b.admin == a.admin && b.total_supply == a.total_supply
                    &&& b.maximum_count == a.maximum_count
                },
                HandleMsg::SetTotalSupply { amount } => {
                    &&& b.total_supply == amount
                    &&& b.token_address == a.token_address && b.nft_address == a.nft_address
                    &&& b.token_contract_hash == a.token_contract_hash
                    &&& b.nft_contract_hash == a.nft_contract_hash
                    &&& b.admin == a.admin && b.maximum_count == a.maximum_count
                    &&& b.public_price == a.public_price && b.private_price == a.private_price
                },
                HandleMsg::SetMaximumNft { amount } => {
                    &&& b.maximum_count == amount
                    &&& b.token_address == a.token_address && b.nft_address == a.nft_address
                    &&& b.token_contract_hash == a.token_contract_hash
                    &&& b.nft_contract_hash == a.nft_contract_hash
                    &&& b.admin == a.admin && b.total_supply == a.total_supply
                    &&& b.public_price == a.public_price && b.private_price == a.private_price
                },
                HandleMsg::ChangeAdmin { address } => {
                    &&& b.admin == address@
                    &&& b.token_address == a.token_address && b.nft_address == a.nft_address
                    &&& b.token_contract_hash == a.token_contract_hash
                    &&& b.nft_contract_hash == a.nft_contract_hash
                    &&& b.total_supply == a.total_supply && b.maximum_count == a.maximum_count
                    &&& b.public_price == a.public_price && b.private_price == a.private_price
                },
                _ => false,
            }
        }),
{
}

} // verus!
