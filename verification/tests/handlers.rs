use nft_mint::contract::{
    handle, handle_is_defined, init, mint_nft_at, pick_slot, query, query_metadata,
    query_state_info, query_user_info, query_white_users,
};
use nft_mint::decimal::{Decimal, DECIMAL_FRACTIONAL};
use nft_mint::env::{BlockInfo, ContractInfo, Env, MessageInfo, OutMsg};
use nft_mint::error::{ContractError, StoredItem};
use nft_mint::msg::{HandleMsg, InitMsg, MetadataMsg, QueryAnswer, QueryMsg, Wallet};
use nft_mint::package::{ExecuteMsg, Trait};
use nft_mint::state::{read_user_info, store_user_info, Store};

fn env_from(sender: &str) -> Env {
    Env {
        block: BlockInfo { height: 1, time: 100, chain_id: "chain".to_string() },
        message: MessageInfo { sender: sender.to_string(), sent_funds: vec![] },
        contract: ContractInfo { address: "sale".to_string() },
        contract_key: None,
        contract_code_hash: "".to_string(),
    }
}

fn item(token_id: &str) -> MetadataMsg {
    MetadataMsg {
        tokenId: Some(token_id.to_string()),
        name: Some(format!("name of {}", token_id)),
        description: Some("a token".to_string()),
        attributes: Some(vec![Trait {
            display_type: None,
            trait_type: Some("colour".to_string()),
            value: "red".to_string(),
            max_value: None,
        }]),
        image: Some("ipfs://image".to_string()),
    }
}

fn init_msg(total_supply: u128, check_minted: Vec<bool>) -> InitMsg {
    InitMsg {
        white_members: vec!["alice".to_string(), "bob".to_string()],
        admin: "admin".to_string(),
        total_supply,
        maximum_count: 1,
        public_price: 1000,
        private_price: 600,
        reward_wallet: vec![
            Wallet { address: "r1".to_string(), portion: Decimal::from_ratio(70, 100) },
            Wallet { address: "r2".to_string(), portion: Decimal::from_ratio(30, 100) },
        ],
        presale_period: 0,
        presale_start: 0,
        nft_contract_hash: "nft_hash".to_string(),
        token_address: "token".to_string(),
        token_contract_hash: "token_hash".to_string(),
        check_minted,
    }
}

/// A contract with a pool of three slots, both sales closed.
fn setup() -> Store {
    let mut deps = Store::new();
    init(&mut deps, env_from("creator"), init_msg(3, vec![true, true, true])).unwrap();
    handle(
        &mut deps,
        env_from("admin"),
        HandleMsg::AddMetaData { metadata: vec![item("t0"), item("t1"), item("t2")] },
    )
    .unwrap();
    deps
}

fn open_sale(deps: &mut Store, private_mint: bool, public_mint: bool) {
    handle(deps, env_from("admin"), HandleMsg::SetSaleFlag { private_mint, public_mint }).unwrap();
}

fn pay(deps: &mut Store, buyer: &str, amount: u128, start: u128) -> Result<nft_mint::env::HandleResponse, ContractError> {
    mint_nft_at(deps, env_from("token"), buyer.to_string(), buyer.to_string(), amount, vec![], start)
}

#[test]
fn init_stores_configuration_with_sales_closed() {
    let deps = setup();
    let st = query_state_info(&deps).unwrap();
    assert_eq!(st.count, 0);
    assert!(!st.public_mint && !st.private_mint);
    assert_eq!(st.nft_address, "nft_address".to_string());
    assert_eq!(st.admin, "admin".to_string());
    assert_eq!(query_white_users(&deps).unwrap(), vec!["alice".to_string(), "bob".to_string()]);
}

#[test]
fn messages_before_init_find_nothing() {
    let mut deps = Store::new();
    let before = deps.clone();
    let res = handle(&mut deps, env_from("admin"), HandleMsg::SetPrice { public_price: 1, private_price: 2 });
    assert_eq!(res, Err(ContractError::NotFound { item: StoredItem::Config }));
    assert_eq!(deps, before);
    assert_eq!(query_state_info(&deps), Err(ContractError::NotFound { item: StoredItem::Config }));
    assert_eq!(query_metadata(&deps), Err(ContractError::NotFound { item: StoredItem::Metadata }));
    assert_eq!(query_white_users(&deps), Err(ContractError::NotFound { item: StoredItem::Members }));
    assert_eq!(
        query(&deps, QueryMsg::GetStateInfo {}),
        Err(ContractError::NotFound { item: StoredItem::Config })
    );
}

#[test]
fn only_admin_configures() {
    let msgs = vec![
        HandleMsg::SetTotalSupply { amount: 9 },
        HandleMsg::SetMaximumNft { amount: 9 },
        HandleMsg::SetPrice { public_price: 1, private_price: 1 },
        HandleMsg::SetRewardWallet { wallet: vec![Wallet { address: "x".to_string(), portion: Decimal::one() }] },
        HandleMsg::ChangeAdmin { address: "mallory".to_string() },
        HandleMsg::SetSaleFlag { private_mint: false, public_mint: true },
        HandleMsg::SetWhiteUsers { members: vec![] },
        HandleMsg::AddWhiteUser { member: "mallory".to_string() },
        HandleMsg::SetNftAddress { nft_address: "x".to_string(), nft_contract_hash: "y".to_string() },
        HandleMsg::SetTokenAddres { token_address: "x".to_string(), token_contract_hash: "y".to_string() },
        HandleMsg::AddMetaData { metadata: vec![item("x")] },
        HandleMsg::SetMetaData { metadata: vec![] },
    ];
    for msg in msgs {
        let mut deps = setup();
        let before = deps.clone();
        let res = handle(&mut deps, env_from("mallory"), msg);
        assert_eq!(res, Err(ContractError::Unauthorized));
        assert_eq!(deps, before);
    }
}

#[test]
fn both_sales_cannot_open() {
    let mut deps = setup();
    let before = deps.clone();
    let res = handle(&mut deps, env_from("admin"), HandleMsg::SetSaleFlag { private_mint: true, public_mint: true });
    assert_eq!(res, Err(ContractError::BothSaleFlags));
    // the flags are checked before the sender
    let res = handle(&mut deps, env_from("mallory"), HandleMsg::SetSaleFlag { private_mint: true, public_mint: true });
    assert_eq!(res, Err(ContractError::BothSaleFlags));
    assert_eq!(deps, before);
    open_sale(&mut deps, true, false);
    let st = query_state_info(&deps).unwrap();
    assert!(st.private_mint && !st.public_mint);
}

#[test]
fn reward_portions_must_add_up_to_one() {
    let mut deps = setup();
    let before = deps.clone();
    let res = handle(
        &mut deps,
        env_from("admin"),
        HandleMsg::SetRewardWallet {
            wallet: vec![
                Wallet { address: "a".to_string(), portion: Decimal::from_ratio(1, 2) },
                Wallet { address: "b".to_string(), portion: Decimal::from_ratio(1, 3) },
            ],
        },
    );
    assert_eq!(res, Err(ContractError::PortionSumNotOne));
    assert_eq!(deps, before);
    let wallet = vec![
        Wallet { address: "a".to_string(), portion: Decimal::from_ratio(1, 4) },
        Wallet { address: "b".to_string(), portion: Decimal::from_ratio(3, 4) },
    ];
    handle(&mut deps, env_from("admin"), HandleMsg::SetRewardWallet { wallet: wallet.clone() }).unwrap();
    assert_eq!(query_state_info(&deps).unwrap().reward_wallet, wallet);
}

#[test]
fn reward_wallet_overflow_is_not_defined() {
    let deps = setup();
    let msg = HandleMsg::SetRewardWallet {
        wallet: vec![
            Wallet { address: "a".to_string(), portion: Decimal(u128::MAX) },
            Wallet { address: "b".to_string(), portion: Decimal(1) },
        ],
    };
    assert!(!handle_is_defined(&deps, &env_from("admin"), &msg));
    // for anyone but the admin the message is refused before any sum
    assert!(handle_is_defined(&deps, &env_from("mallory"), &msg));
}

#[test]
fn whitelist_rejects_repeated_user() {
    let mut deps = setup();
    let before = deps.clone();
    let res = handle(&mut deps, env_from("admin"), HandleMsg::AddWhiteUser { member: "alice".to_string() });
    assert_eq!(res, Err(ContractError::RepeatedUser));
    assert_eq!(deps, before);
    handle(&mut deps, env_from("admin"), HandleMsg::AddWhiteUser { member: "carol".to_string() }).unwrap();
    assert_eq!(
        query_white_users(&deps).unwrap(),
        vec!["alice".to_string(), "bob".to_string(), "carol".to_string()]
    );
}

#[test]
fn missing_parts_of_the_storage_are_reported() {
    let mut deps = setup();
    deps.members = None;
    deps.metadata = None;
    let res = handle(&mut deps, env_from("admin"), HandleMsg::AddWhiteUser { member: "carol".to_string() });
    assert_eq!(res, Err(ContractError::NotFound { item: StoredItem::Members }));
    let res = handle(&mut deps, env_from("admin"), HandleMsg::AddMetaData { metadata: vec![item("x")] });
    assert_eq!(res, Err(ContractError::NotFound { item: StoredItem::Metadata }));
    open_sale(&mut deps, false, true);
    assert_eq!(pay(&mut deps, "alice", 1000, 0), Err(ContractError::NotFound { item: StoredItem::Metadata }));
}

#[test]
fn metadata_is_appended_or_replaced() {
    let mut deps = setup();
    handle(&mut deps, env_from("admin"), HandleMsg::AddMetaData { metadata: vec![item("t3")] }).unwrap();
    assert_eq!(query_metadata(&deps).unwrap(), vec![item("t0"), item("t1"), item("t2"), item("t3")]);
    handle(&mut deps, env_from("admin"), HandleMsg::SetMetaData { metadata: vec![item("z")] }).unwrap();
    assert_eq!(query_metadata(&deps).unwrap(), vec![item("z")]);
}

#[test]
fn sale_refusals() {
    let mut deps = setup();
    let before = deps.clone();
    assert_eq!(pay(&mut deps, "alice", 1000, 0), Err(ContractError::PresaleNotStarted));
    assert_eq!(deps, before);

    open_sale(&mut deps, false, true);
    let res = mint_nft_at(&mut deps, env_from("other_token"), "alice".to_string(), "alice".to_string(), 1000, vec![], 0);
    assert_eq!(res, Err(ContractError::WrongContractAddress));
    assert_eq!(pay(&mut deps, "alice", 999, 0), Err(ContractError::NotExactMoney));

    open_sale(&mut deps, true, false);
    assert_eq!(pay(&mut deps, "carol", 600, 0), Err(ContractError::NotWhitelisted));
    assert_eq!(pay(&mut deps, "alice", 1000, 0), Err(ContractError::NotExactMoney));

    handle(&mut deps, env_from("admin"), HandleMsg::SetTotalSupply { amount: 0 }).unwrap();
    assert_eq!(pay(&mut deps, "alice", 600, 0), Err(ContractError::SupplyExhausted));
}

#[test]
fn public_sale_mints_slot_and_splits_payment() {
    let mut deps = setup();
    open_sale(&mut deps, false, true);
    let res = pay(&mut deps, "carol", 1000, 2).unwrap();
    let st = query_state_info(&deps).unwrap();
    assert_eq!(st.check_minted, vec![true, true, false]);
    assert_eq!(query_user_info(&deps, "carol".to_string()).unwrap(), vec!["t2".to_string()]);
    assert_eq!(res.messages.len(), 3);
    match &res.messages[0] {
        OutMsg::MintNft { contract_addr, callback_code_hash, msg } => {
            assert_eq!(contract_addr, "nft_address");
            assert_eq!(callback_code_hash, "nft_hash");
            match msg {
                ExecuteMsg::MintNft { token_id, owner, public_metadata, private_metadata, .. } => {
                    assert_eq!(token_id, &Some("t2".to_string()));
                    assert_eq!(owner, &Some("carol".to_string()));
                    assert!(private_metadata.is_none());
                    let pm = public_metadata.as_ref().unwrap();
                    assert!(pm.token_uri.is_none());
                    let ext = pm.extension.as_ref().unwrap();
                    assert_eq!(ext.name, Some("name of t2".to_string()));
                    assert_eq!(ext.image, Some("ipfs://image".to_string()));
                    assert_eq!(ext.description, Some("a token".to_string()));
                    assert_eq!(ext.attributes, item("t2").attributes);
                    assert!(ext.media.is_none() && ext.image_data.is_none());
                }
            }
        }
        other => panic!("unexpected message {:?}", other),
    }
    assert_eq!(
        res.messages[1],
        OutMsg::Transfer {
            contract_addr: "token".to_string(),
            callback_code_hash: "token_hash".to_string(),
            recipient: "r1".to_string(),
            amount: 700,
        }
    );
    assert_eq!(
        res.messages[2],
        OutMsg::Transfer {
            contract_addr: "token".to_string(),
            callback_code_hash: "token_hash".to_string(),
            recipient: "r2".to_string(),
            amount: 300,
        }
    );
    // the transfers pay out the whole payment, no more
    let paid: u128 = res
        .messages
        .iter()
        .map(|m| match m {
            OutMsg::Transfer { amount, .. } => *amount,
            _ => 0,
        })
        .sum();
    assert_eq!(paid, 1000);
}

#[test]
fn admin_messages_leave_minted_slots_minted() {
    let mut deps = setup();
    open_sale(&mut deps, false, true);
    pay(&mut deps, "carol", 1000, 1).unwrap();
    handle(&mut deps, env_from("admin"), HandleMsg::SetTotalSupply { amount: 1 }).unwrap();
    handle(&mut deps, env_from("admin"), HandleMsg::SetMetaData { metadata: vec![item("n0"), item("n1"), item("n2")] }).unwrap();
    open_sale(&mut deps, false, false);
    assert_eq!(query_state_info(&deps).unwrap().check_minted, vec![true, false, true]);
}

#[test]
fn sale_skips_minted_slots_and_wraps_around() {
    let mut deps = setup();
    open_sale(&mut deps, false, true);
    pay(&mut deps, "carol", 1000, 2).unwrap();
    // slot 2 is taken: the draw 2 goes on to slot 0
    pay(&mut deps, "carol", 1000, 2).unwrap();
    assert_eq!(query_state_info(&deps).unwrap().check_minted, vec![false, true, false]);
    assert_eq!(
        query_user_info(&deps, "carol".to_string()).unwrap(),
        vec!["t2".to_string(), "t0".to_string()]
    );
    // with every slot minted, a further sale is not defined
    pay(&mut deps, "dave", 1000, 0).unwrap();
    let msg = HandleMsg::Receive { sender: "erin".to_string(), from: "erin".to_string(), amount: 1000, msg: vec![] };
    assert!(!handle_is_defined(&deps, &env_from("token"), &msg));
    // a refused payment is defined whatever the pool holds
    let wrong = HandleMsg::Receive { sender: "erin".to_string(), from: "erin".to_string(), amount: 1, msg: vec![] };
    assert!(handle_is_defined(&deps, &env_from("other"), &wrong));
}

#[test]
fn sale_needs_metadata_of_the_drawn_slot_only() {
    let mut deps = setup();
    let mut no_id = item("t2");
    no_id.tokenId = None;
    handle(&mut deps, env_from("admin"), HandleMsg::SetMetaData { metadata: vec![item("t0"), item("t1"), no_id] }).unwrap();
    open_sale(&mut deps, false, true);
    // slot 2 has no token id, but the draw 0 mints slot 0
    pay(&mut deps, "carol", 1000, 0).unwrap();
    assert_eq!(query_user_info(&deps, "carol".to_string()).unwrap(), vec!["t0".to_string()]);
    // a pool shorter than the supply serves a draw that meets a free slot inside it
    let mut short = Store::new();
    init(&mut short, env_from("creator"), init_msg(5, vec![true])).unwrap();
    handle(&mut short, env_from("admin"), HandleMsg::AddMetaData { metadata: vec![item("a")] }).unwrap();
    open_sale(&mut short, false, true);
    pay(&mut short, "dave", 1000, 0).unwrap();
    assert_eq!(query_state_info(&short).unwrap().check_minted, vec![false]);
}

#[test]
fn private_sale_cap() {
    let mut deps = setup();
    open_sale(&mut deps, true, false);
    // the first token is always allowed, whatever the maximum
    handle(&mut deps, env_from("admin"), HandleMsg::SetMaximumNft { amount: 0 }).unwrap();
    pay(&mut deps, "alice", 600, 0).unwrap();
    let before = deps.clone();
    assert_eq!(pay(&mut deps, "alice", 600, 1), Err(ContractError::UserLimitReached));
    assert_eq!(deps, before);
    handle(&mut deps, env_from("admin"), HandleMsg::SetMaximumNft { amount: 2 }).unwrap();
    pay(&mut deps, "alice", 600, 1).unwrap();
    assert_eq!(query_user_info(&deps, "alice".to_string()).unwrap().len(), 2);
    assert_eq!(pay(&mut deps, "alice", 600, 2), Err(ContractError::UserLimitReached));
}

#[test]
fn random_draw_stays_below_supply() {
    // supply 1 over a pool of two free slots: only slot 0 can be drawn
    let mut deps = Store::new();
    init(&mut deps, env_from("creator"), init_msg(1, vec![true, true])).unwrap();
    handle(&mut deps, env_from("admin"), HandleMsg::AddMetaData { metadata: vec![item("a"), item("b")] }).unwrap();
    open_sale(&mut deps, false, true);
    let msg = HandleMsg::Receive { sender: "carol".to_string(), from: "carol".to_string(), amount: 1000, msg: vec![] };
    assert!(handle_is_defined(&deps, &env_from("token"), &msg));
    handle(&mut deps, env_from("token"), msg).unwrap();
    assert_eq!(query_state_info(&deps).unwrap().check_minted, vec![false, true]);
    assert_eq!(query_user_info(&deps, "carol".to_string()).unwrap(), vec!["a".to_string()]);
}

#[test]
fn count_never_changes() {
    let mut deps = setup();
    open_sale(&mut deps, false, true);
    pay(&mut deps, "carol", 1000, 0).unwrap();
    handle(&mut deps, env_from("admin"), HandleMsg::SetTotalSupply { amount: 2 }).unwrap();
    assert_eq!(query_state_info(&deps).unwrap().count, 0);
}

#[test]
fn pick_slot_scans_forward_and_wraps() {
    assert_eq!(pick_slot(&vec![true, false, false], 3, 2), 0);
    assert_eq!(pick_slot(&vec![false, false, true], 3, 0), 2);
    assert_eq!(pick_slot(&vec![true, true, true], 3, 1), 1);
    // slots beyond the supply are never picked
    assert_eq!(pick_slot(&vec![false, true, true], 2, 0), 1);
}

#[test]
fn user_info_queries() {
    let mut deps = setup();
    assert_eq!(
        query(&deps, QueryMsg::GetUserInfo { address: "nobody".to_string() }),
        Ok(QueryAnswer::UserInfo(vec![]))
    );
    store_user_info(&mut deps, &"bob".to_string(), vec!["x".to_string()]);
    store_user_info(&mut deps, &"amy".to_string(), vec!["y".to_string()]);
    store_user_info(&mut deps, &"bob".to_string(), vec!["x".to_string(), "z".to_string()]);
    assert_eq!(read_user_info(&deps, &"bob".to_string()), Some(vec!["x".to_string(), "z".to_string()]));
    assert_eq!(read_user_info(&deps, &"amy".to_string()), Some(vec!["y".to_string()]));
    assert_eq!(read_user_info(&deps, &"cid".to_string()), None);
    assert_eq!(
        query(&deps, QueryMsg::GetWhiteUsers {}),
        Ok(QueryAnswer::WhiteUsers(vec!["alice".to_string(), "bob".to_string()]))
    );
}

#[test]
fn decimal_arithmetic() {
    assert_eq!(Decimal::from_ratio(1, 3).0, 333_333_333_333_333_333);
    assert_eq!(Decimal::from_ratio(3, 2).0, 1_500_000_000_000_000_000);
    assert_eq!(Decimal::one().0, DECIMAL_FRACTIONAL);
    assert_eq!(Decimal::zero().0, 0);
    assert_eq!(Decimal::from_ratio(7, 100).add(Decimal::from_ratio(3, 100)), Decimal::from_ratio(1, 10));
    assert_eq!(Decimal::from_ratio(70, 100).mul_amount(600000), 420000);
    assert_eq!(Decimal::from_ratio(1, 3).mul_amount(10), 3);
    assert_eq!(Decimal::zero().mul_amount(u128::MAX), 0);
}

#[test]
fn error_texts() {
    assert_eq!(ContractError::Unauthorized.message(), "Unauthorized");
    assert_eq!(ContractError::SupplyExhausted.message(), "Can not mint any more");
    assert_eq!(ContractError::UserLimitReached.message(), "You can not mint any more");
    assert_eq!(ContractError::PortionSumNotOne.message(), "The sum must be equal to 1");
    assert_eq!(ContractError::RepeatedUser.message(), "repeated user");
    assert_eq!(ContractError::RandomnessUnavailable.message(), "Randomness unavailable");
    assert_eq!(
        ContractError::NotFound { item: StoredItem::Config }.message(),
        "nft_mint::state::State not found"
    );
}

#[test]
fn whitelist_unchanged_by_other_messages() {
    let mut deps = setup();
    open_sale(&mut deps, true, false);
    pay(&mut deps, "alice", 600, 0).unwrap();
    handle(&mut deps, env_from("admin"), HandleMsg::SetPrice { public_price: 3, private_price: 4 }).unwrap();
    let _ = handle(&mut deps, env_from("mallory"), HandleMsg::AddWhiteUser { member: "mallory".to_string() });
    let _ = handle(&mut deps, env_from("admin"), HandleMsg::AddWhiteUser { member: "bob".to_string() });
    handle(&mut deps, env_from("admin"), HandleMsg::ChangeAdmin { address: "root".to_string() }).unwrap();
    assert_eq!(query_white_users(&deps).unwrap(), vec!["alice".to_string(), "bob".to_string()]);
}
