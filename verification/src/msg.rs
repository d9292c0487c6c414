use vstd::prelude::*;

use crate::decimal::Decimal;
use crate::dup::Duplicate;
use crate::package::{Trait, TraitView};
use crate::state::State;

verus! {

/// The message that instantiates the contract.
#[derive(Clone, Debug, PartialEq)]
pub struct InitMsg {
    /// the initial whitelist of the private sale
    pub white_members: Vec<String>,
    /// the address that may change the configuration
    pub admin: String,
    /// number of slots of the metadata pool that can be minted
    pub total_supply: u128,
    /// how many tokens a whitelisted buyer may hold after the private sale
    pub maximum_count: u128,
    /// price of one token in the public sale
    pub public_price: u128,
    /// price of one token in the private sale
    pub private_price: u128,
    /// the wallets among which every payment is split
    pub reward_wallet: Vec<Wallet>,
    /// length of the presale in seconds (kept for clients; the contract does not read it)
    pub presale_period: u64,
    /// start of the presale (kept for clients; the contract does not read it)
    pub presale_start: u64,
    /// code hash of the SNIP-721 contract
    pub nft_contract_hash: String,
    /// address of the SNIP-20 contract in which buyers pay
    pub token_address: String,
    /// code hash of the SNIP-20 contract
    pub token_contract_hash: String,
    /// one flag per slot of the metadata pool: `true` while the slot is not minted
    pub check_minted: Vec<bool>,
}

/// The messages that the contract handles.
#[derive(Clone, Debug, PartialEq)]
pub enum HandleMsg {
    /// A SNIP-20 `Receive` callback: `sender` paid `amount` to buy one token.
    Receive { sender: String, from: String, amount: u128, msg: Vec<u8> },
    SetTotalSupply { amount: u128 },
    SetMaximumNft { amount: u128 },
    SetPrice { public_price: u128, private_price: u128 },
    SetRewardWallet { wallet: Vec<Wallet> },
    ChangeAdmin { address: String },
    SetSaleFlag { private_mint: bool, public_mint: bool },
    SetWhiteUsers { members: Vec<String> },
    AddWhiteUser { member: String },
    SetNftAddress { nft_address: String, nft_contract_hash: String },
    SetTokenAddres { token_address: String, token_contract_hash: String },
    AddMetaData { metadata: Vec<MetadataMsg> },
    SetMetaData { metadata: Vec<MetadataMsg> },
}

/// The queries that the contract answers.
#[derive(Clone, Debug, PartialEq)]
pub enum QueryMsg {
    GetStateInfo {},
    GetWhiteUsers {},
    GetUserInfo { address: String },
}

/// A counter answer.
#[derive(Clone, Copy, Debug, PartialEq, Eq)]
pub struct CountResponse {
    pub count: i32,
}

/// A wallet that receives `portion` of every payment.
#[derive(Clone, Debug, PartialEq)]
pub struct Wallet {
    pub address: String,
    pub portion: Decimal,
}

/// The contents of a [`Wallet`].
pub struct WalletView {
    pub address: Seq<char>,
    pub portion: Decimal,
}

impl DeepView for Wallet {
    type V = WalletView;

    open spec fn deep_view(&self) -> WalletView {
        WalletView { address: self.address@, portion: self.portion }
    }
}

impl Duplicate for Wallet {
    fn duplicate(&self) -> (r: Wallet) {
        Wallet { address: self.address.duplicate(), portion: self.portion }
    }
}

/// The metadata of one slot of the pool.
#[allow(non_snake_case)]
#[derive(Clone, Debug, PartialEq, Default)]
pub struct MetadataMsg {
    /// id of the token minted from this slot
    pub tokenId: Option<String>,
    /// name of the item
    pub name: Option<String>,
    /// item description
    pub description: Option<String>,
    /// item attributes
    pub attributes: Option<Vec<Trait>>,
    /// url to the image
    pub image: Option<String>,
}

/// The contents of a [`MetadataMsg`].
pub struct MetadataMsgView {
    pub token_id: Option<Seq<char>>,
    pub name: Option<Seq<char>>,
    pub description: Option<Seq<char>>,
    pub attributes: Option<Seq<TraitView>>,
    pub image: Option<Seq<char>>,
}

impl DeepView for MetadataMsg {
    type V = MetadataMsgView;

    open spec fn deep_view(&self) -> MetadataMsgView {
        MetadataMsgView {
            token_id: self.tokenId.deep_view(),
            name: self.name.deep_view(),
            description: self.description.deep_view(),
            attributes: self.attributes.deep_view(),
            image: self.image.deep_view(),
        }
    }
}

impl Duplicate for MetadataMsg {
    fn duplicate(&self) -> (r: MetadataMsg) {
        MetadataMsg {
            tokenId: self.tokenId.duplicate(),
            name: self.name.duplicate(),
            description: self.description.duplicate(),
            attributes: self.attributes.duplicate(),
            image: self.image.duplicate(),
        }
    }
}

/// The answers to the queries.
#[derive(Clone, Debug, PartialEq)]
pub enum QueryAnswer {
    /// the configuration
    StateInfo(State),
    /// the whitelist
    WhiteUsers(Vec<String>),
    /// the token ids of a buyer
    UserInfo(Vec<String>),
}

} // verus!
