use vstd::prelude::*;

use crate::package::ExecuteMsg;

verus! {

/// An amount of a native coin.
#[derive(Clone, Debug, PartialEq)]
pub struct Coin {
    pub denom: String,
    pub amount: u128,
}

/// The block in which a message is executed.
#[derive(Clone, Debug, PartialEq)]
pub struct BlockInfo {
    pub height: u64,
    /// seconds since the UNIX epoch
    pub time: u64,
    pub chain_id: String,
}

/// Who sent the executed message, and what it carried.
#[derive(Clone, Debug, PartialEq)]
pub struct MessageInfo {
    /// the address that signed or sent the message
    pub sender: String,
    /// native coins sent along with the message
    pub sent_funds: Vec<Coin>,
}

/// The address of this contract.
#[derive(Clone, Debug, PartialEq)]
pub struct ContractInfo {
    pub address: String,
}

/// The environment in which a message is executed.
#[derive(Clone, Debug, PartialEq)]
pub struct Env {
    pub block: BlockInfo,
    pub message: MessageInfo,
    pub contract: ContractInfo,
    pub contract_key: Option<String>,
    pub contract_code_hash: String,
}

/// A message that the contract asks the chain to send after a handled message.
#[derive(Clone, Debug, PartialEq)]
pub enum OutMsg {
    /// Execute `msg` on the SNIP-721 contract at `contract_addr`.
    MintNft {
        contract_addr: String,
        callback_code_hash: String,
        msg: ExecuteMsg,
    },
    /// Transfer `amount` SNIP-20 tokens of the contract at `contract_addr` to `recipient`.
    Transfer {
        contract_addr: String,
        callback_code_hash: String,
        recipient: String,
        amount: u128,
    },
}

/// The answer to an initialization.
#[derive(Clone, Debug, PartialEq)]
pub struct InitResponse {
    pub messages: Vec<OutMsg>,
}

/// The answer to a handled message.
#[derive(Clone, Debug, PartialEq)]
pub struct HandleResponse {
    pub messages: Vec<OutMsg>,
}

} // verus!
