use nft_mint::contract::{handle, init, mint_nft_at, query_metadata, query_state_info, query_user_info};
use nft_mint::decimal::Decimal;
use nft_mint::env::{BlockInfo, Coin, ContractInfo, Env, MessageInfo};
use nft_mint::msg::{HandleMsg, InitMsg, MetadataMsg, Wallet};
use nft_mint::contract::query_white_users;
use nft_mint::package::Trait;
use nft_mint::state::Store;

fn mock_dependencies(_canonical_length: usize, _contract_balance: &[Coin]) -> Store {
    Store::new()
}

fn mock_env(sender: &str, sent: &[Coin]) -> Env {
    Env {
        block: BlockInfo {
            height: 12_345,
            time: 1_571_797_419,
            chain_id: "cosmos-testnet-14002".to_string(),
        },
        message: MessageInfo { sender: sender.to_string(), sent_funds: sent.to_vec() },
        contract: ContractInfo { address: "cosmos2contract".to_string() },
        contract_key: Some("".to_string()),
        contract_code_hash: "".to_string(),
    }
}

fn coins(amount: u128, denom: &str) -> Vec<Coin> {
    vec![Coin { denom: denom.to_string(), amount }]
}

fn metadata(token_id: &str, name: &str, description: &str, image: &str) -> MetadataMsg {
    MetadataMsg {
        tokenId: Some(token_id.to_string()),
        name: Some(name.to_string()),
        description: Some(description.to_string()),
        attributes: None,
        image: Some(image.to_string()),
    }
}

#[test]
fn proper_initialization() {
    let mut deps = mock_dependencies(20, &[]);
    let env = mock_env("creator", &coins(1000, "earth"));

    let msg = InitMsg {
        white_members: vec!["white1".to_string(), "white2".to_string()],
        admin: "admin".to_string(),
        total_supply: 5,
        maximum_count: 1,
        public_price: 500000,
        private_price: 600000,
        reward_wallet: vec![
            Wallet { address: "reward1".to_string(), portion: Decimal::from_ratio(7 as u128, 100 as u128) },
            Wallet { address: "reward2".to_string(), portion: Decimal::from_ratio(3 as u128, 100 as u128) },
        ],
        presale_start: env.block.time,
        presale_period: 100,
        nft_contract_hash: "uscrt".to_string(),
        token_address: "token_address".to_string(),
        token_contract_hash: "token_hash".to_string(),
        check_minted: vec![true, true, true, true, true],
    };

    let res = init(&mut deps, env.clone(), msg).unwrap();
    assert_eq!(0, res.messages.len());
}

#[test]
fn test_state() {
    let mut deps = mock_dependencies(20, &[]);
    let env = mock_env("creator", &vec![]);

    let msg = InitMsg {
        white_members: vec!["white1".to_string(), "white2".to_string()],
        admin: "admin".to_string(),
        total_supply: 5,
        maximum_count: 1,
        public_price: 500000,
        private_price: 600000,
        reward_wallet: vec![
            Wallet { address: "reward1".to_string(), portion: Decimal::from_ratio(7 as u128, 100 as u128) },
            Wallet { address: "reward2".to_string(), portion: Decimal::from_ratio(3 as u128, 100 as u128) },
        ],
        presale_start: env.block.time,
        presale_period: 100,
        nft_contract_hash: "uscrt".to_string(),
        token_address: "token_address".to_string(),
        token_contract_hash: "token_hash".to_string(),
        check_minted: vec![true, true, true, true, true],
    };

    let res = init(&mut deps, env, msg).unwrap();
    assert_eq!(0, res.messages.len());

    let env = mock_env("admin", &vec![]);
    let msg = HandleMsg::SetRewardWallet {
        wallet: vec![Wallet {
            address: "reward1".to_string(),
            portion: Decimal::from_ratio(100 as u128, 100 as u128),
        }],
    };
    let _res = handle(&mut deps, env, msg).unwrap();
    let state = query_state_info(&deps).unwrap();

    assert_eq!(
        state.reward_wallet,
        vec![Wallet { address: "reward1".to_string(), portion: Decimal::one() }]
    );

    let env = mock_env("admin", &vec![]);
    let msg = HandleMsg::AddMetaData {
        metadata: vec![
            metadata("token_id", "name", "description", "image"),
            metadata("token_id1", "name1", "description1", "image1"),
        ],
    };

    let _res = handle(&mut deps, env, msg).unwrap();
    let md = query_metadata(&deps).unwrap();
    assert_eq!(
        md,
        vec![
            metadata("token_id", "name", "description", "image"),
            metadata("token_id1", "name1", "description1", "image1"),
        ]
    );

    let env = mock_env("admin", &vec![]);
    let msg = HandleMsg::SetMaximumNft { amount: 2 };
    let _res = handle(&mut deps, env, msg).unwrap();

    let state = query_state_info(&deps).unwrap();
    assert_eq!(state.maximum_count, 2);

    let env = mock_env("admin", &vec![]);
    let msg = HandleMsg::SetTotalSupply { amount: 100 };
    let _res = handle(&mut deps, env, msg).unwrap();

    let state = query_state_info(&deps).unwrap();
    assert_eq!(state.total_supply, 100);

    let env = mock_env("admin", &vec![]);
    let msg = HandleMsg::SetPrice { public_price: 5, private_price: 10 };
    let _res = handle(&mut deps, env, msg).unwrap();

    let state = query_state_info(&deps).unwrap();
    assert_eq!(state.public_price, 5);
    assert_eq!(state.private_price, 10);

    let env = mock_env("admin", &vec![]);
    let msg = HandleMsg::ChangeAdmin { address: "admin1".to_string() };
    let _res = handle(&mut deps, env, msg).unwrap();

    let state = query_state_info(&deps).unwrap();
    assert_eq!(state.admin, "admin1".to_string());

    let env = mock_env("admin1", &vec![]);
    let msg = HandleMsg::SetWhiteUsers { members: vec!["white1".to_string()] };
    let _res = handle(&mut deps, env, msg).unwrap();

    let members = query_white_users(&deps).unwrap();
    assert_eq!(members, vec!["white1".to_string()]);

    let env = mock_env("admin1", &vec![]);
    let msg = HandleMsg::AddWhiteUser { member: "white2".to_string() };
    let _res = handle(&mut deps, env, msg).unwrap();

    let members = query_white_users(&deps).unwrap();
    assert_eq!(members, vec!["white1".to_string(), "white2".to_string()]);
}

#[test]
fn mint() {
    let mut deps = mock_dependencies(20, &[]);
    let env = mock_env("creator", &coins(1000, "earth"));

    let msg = InitMsg {
        white_members: vec!["white1".to_string(), "white2".to_string()],
        admin: "admin".to_string(),
        total_supply: 5,
        maximum_count: 1,
        public_price: 600000,
        private_price: 400000,
        reward_wallet: vec![
            Wallet { address: "reward1".to_string(), portion: Decimal::from_ratio(70 as u128, 100 as u128) },
            Wallet { address: "reward2".to_string(), portion: Decimal::from_ratio(30 as u128, 100 as u128) },
        ],
        presale_start: env.block.time - 110,
        presale_period: 100,
        nft_contract_hash: "uscrt".to_string(),
        token_address: "token_address".to_string(),
        token_contract_hash: "token_hash".to_string(),
        check_minted: vec![true, true, true, true, true],
    };

    let res = init(&mut deps, env, msg).unwrap();
    assert_eq!(0, res.messages.len());

    let env = mock_env("admin", &vec![]);
    let msg = HandleMsg::SetNftAddress {
        nft_address: "nft".to_string(),
        nft_contract_hash: "123".to_string(),
    };
    let _res = handle(&mut deps, env, msg).unwrap();

    let state = query_state_info(&deps).unwrap();
    assert_eq!(state.nft_address, "nft".to_string());

    // The payload of the payment: the JSON form of this metadata.
    let _payload = MetadataMsg {
        tokenId: Some("punks1".to_string()),
        description: Some("secret steam".to_string()),
        attributes: Some(vec![Trait {
            trait_type: Some("Clothes".to_string()),
            value: "value".to_string(),
            display_type: None,
            max_value: None,
        }]),
        name: Some("name".to_string()),
        image: Some("image".to_string()),
    };
    let message: Vec<u8> = br#"{"tokenId":"punks1","name":"name","description":"secret steam","attributes":[{"display_type":null,"trait_type":"Clothes","value":"value","max_value":null}],"image":"image"}"#.to_vec();
    let env = mock_env("admin", &vec![]);
    let msg = HandleMsg::AddMetaData {
        metadata: vec![
            metadata("token_id", "name", "description", "image"),
            metadata("token_id1", "name1", "description1", "image1"),
            metadata("token_id1", "name1", "description1", "image1"),
            metadata("token_id1", "name1", "description1", "image1"),
            metadata("token_id1", "name1", "description1", "image1"),
        ],
    };
    let _res = handle(&mut deps, env, msg).unwrap();

    let env = mock_env("admin", &vec![]);
    let msg = HandleMsg::SetSaleFlag { private_mint: false, public_mint: true };
    let _res = handle(&mut deps, env, msg).unwrap();

    // The first sale's slot is drawn at random; the expectation below holds for
    // every draw but slot 0, so this sale is made with the draw 1.
    let env = mock_env("token_address", &vec![]);
    let _res = mint_nft_at(
        &mut deps,
        env,
        "white1".to_string(),
        "xxx".to_string(),
        600000,
        message.clone(),
        1,
    )
    .unwrap();
    let user_info = query_user_info(&deps, "minter2".to_string()).unwrap();
    let empty: Vec<String> = vec![];
    assert_eq!(user_info, empty);

    let user_info = query_user_info(&deps, "white1".to_string()).unwrap();
    assert_eq!(user_info, vec!["token_id1".to_string()]);

    let env = mock_env("token_address", &vec![]);
    let msg = HandleMsg::Receive { sender: "white1".to_string(), from: "xxx".to_string(), amount: 600000, msg: message.clone() };
    let _res = handle(&mut deps, env, msg).unwrap();

    let env = mock_env("token_address", &vec![]);
    let msg = HandleMsg::Receive { sender: "white1".to_string(), from: "xxx".to_string(), amount: 600000, msg: message.clone() };
    let _res = handle(&mut deps, env, msg).unwrap();

    let env = mock_env("token_address", &vec![]);
    let msg = HandleMsg::Receive { sender: "white1".to_string(), from: "xxx".to_string(), amount: 600000, msg: message.clone() };
    let _res = handle(&mut deps, env, msg).unwrap();

    let env = mock_env("token_address", &vec![]);
    let msg = HandleMsg::Receive { sender: "white1".to_string(), from: "xxx".to_string(), amount: 600000, msg: message.clone() };
    let _res = handle(&mut deps, env, msg).unwrap();

    let state = query_state_info(&deps).unwrap();
    assert_eq!(state.check_minted, vec![false, false, false, false, false]);
}
