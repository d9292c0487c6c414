use vstd::prelude::*;

verus! {

/// A part of the contract's storage.
#[derive(Clone, Copy, Debug, PartialEq, Eq, Structural)]
pub enum StoredItem {
    /// the sale configuration
    Config,
    /// the whitelist
    Members,
    /// the metadata pool
    Metadata,
}

/// Why the contract refused a message.
#[derive(Clone, Copy, Debug, PartialEq, Eq, Structural)]
pub enum ContractError {
    /// a part of the storage was never written
    NotFound { item: StoredItem },
    /// the sender is not the admin
    Unauthorized,
    /// neither sale is open
    PresaleNotStarted,
    /// the payment does not come from the configured token contract
    WrongContractAddress,
    /// the supply is exhausted
    SupplyExhausted,
    /// the buyer is not on the whitelist of the private sale
    NotWhitelisted,
    /// the amount paid is not the price
    NotExactMoney,
    /// the buyer already holds the maximum number of tokens of the private sale
    UserLimitReached,
    /// the portions of the reward wallets do not add up to one
    PortionSumNotOne,
    /// both sales were asked to open at once
    BothSaleFlags,
    /// the address is already on the whitelist
    RepeatedUser,
    /// no random draw could be made for a sale
    RandomnessUnavailable,
}

/// The text with which the contract reports `e`: for a missing part of the
/// storage, the path of the type stored there followed by "not found".
pub open spec fn error_text(e: ContractError) -> Seq<char> {
    match e {
        ContractError::NotFound { item } => match item {
            StoredItem::Config => "nft_mint::state::State not found"@,
            StoredItem::Members => "alloc::vec::Vec<alloc::string::String> not found"@,
            StoredItem::Metadata => "alloc::vec::Vec<nft_mint::msg::MetadataMsg> not found"@,
        },
        ContractError::Unauthorized => "Unauthorized"@,
        ContractError::PresaleNotStarted => "PresaleNotStarted"@,
        ContractError::WrongContractAddress => "Wrong contract address"@,
        ContractError::SupplyExhausted => "Can not mint any more"@,
        ContractError::NotWhitelisted => "You are not whitelisted"@,
        ContractError::NotExactMoney => "Not exact money"@,
        ContractError::UserLimitReached => "You can not mint any more"@,
        ContractError::PortionSumNotOne => "The sum must be equal to 1"@,
        ContractError::BothSaleFlags => "You can not set both true"@,
        ContractError::RepeatedUser => "repeated user"@,
        ContractError::RandomnessUnavailable => "Randomness unavailable"@,
    }
}

impl ContractError {
    /// The text with which the contract reports this error.
    pub fn message(&self) -> (s: String)
        ensures
            s@ == error_text(*self),
    {
        match self {
            ContractError::NotFound { item } => match item {
                StoredItem::Config => String::from_str("nft_mint::state::State not found"),
                StoredItem::Members => String::from_str("alloc::vec::Vec<alloc::string::String> not found"),
                StoredItem::Metadata => String::from_str("alloc::vec::Vec<nft_mint::msg::MetadataMsg> not found"),
            },
            ContractError::Unauthorized => String::from_str("Unauthorized"),
            ContractError::PresaleNotStarted => String::from_str("PresaleNotStarted"),
            ContractError::WrongContractAddress => String::from_str("Wrong contract address"),
            ContractError::SupplyExhausted => String::from_str("Can not mint any more"),
            ContractError::NotWhitelisted => String::from_str("You are not whitelisted"),
            ContractError::NotExactMoney => String::from_str("Not exact money"),
            ContractError::UserLimitReached => String::from_str("You can not mint any more"),
            ContractError::PortionSumNotOne => String::from_str("The sum must be equal to 1"),
            ContractError::BothSaleFlags => String::from_str("You can not set both true"),
            ContractError::RepeatedUser => String::from_str("repeated user"),
            ContractError::RandomnessUnavailable => String::from_str("Randomness unavailable"),
        }
    }
}

} // verus!
