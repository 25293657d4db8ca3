use vstd::prelude::*;

verus! {

/// The data a first-time setup is given.
///
/// The owner of the new ledger is the account performing the setup; the
/// `owner` field is carried for callers that record it elsewhere.
#[derive(Clone, Debug, PartialEq, Eq)]
pub struct InstantiateMsg {
    pub owner: String,
    pub fee_address: String,
    pub collection_address: String,
    pub native_token: String,
    pub duration: u64,
}

/// The message attached to an incoming item transfer: who is staking, and
/// which item.
#[derive(Clone, Debug, PartialEq, Eq)]
pub enum NftReceiveMsg {
    Stake { sender: String, token_id: String },
}

/// A request to change or use the ledger.
///
/// `ReceiveNft` carries the notification of an item transfer into custody:
/// the transfer's actual sender and item, and the staking message attached
/// to it.
#[derive(Clone, Debug, PartialEq, Eq)]
pub enum ExecuteMsg {
    UpdateOwner { owner: String },
    UpdateFeeAddress { fee_address: String },
    UpdateEnabled { enabled: bool },
    UpdateConfig {
        new_owner: String,
        new_fee_address: String,
        new_collection_address: String,
        new_duration: u64,
        new_locktime_fee: u128,
    },
    Withdraw { amount: u128 },
    Airdrop { airdrop_amount: u128 },
    AirdropRestart {},
    ReceiveNft { sender: String, token_id: String, msg: NftReceiveMsg },
    Restake { restake_nft_id: String },
    Unstake { unstake_nft_id: String },
    Claim { claim_nft_id: String },
    UpdateDuration { duration: u64 },
}

/// A read-only question about the ledger.
#[derive(Clone, Debug, PartialEq, Eq)]
pub enum QueryMsg {
    GetConfig {},
    GetTotalEarned { address: String },
    GetTotalLocked {},
    StakedNfts { address: String },
}

/// The configuration and the global counters, as one read-out.
#[derive(Clone, Debug, PartialEq, Eq)]
pub struct ConfigResponse {
    pub owner: String,
    pub collection_address: String,
    pub fee_address: String,
    pub duration: u64,
    pub enabled: bool,
    pub last_airdrop_time: u64,
    pub current_time: u64,
    pub total_staked: u64,
    pub total_airdrop: u128,
    pub locktime_fee: u128,
}

/// An account's lifetime-earned reward total; zero for an account that has
/// never deposited.
#[derive(Clone, Debug, PartialEq, Eq)]
pub struct TotalEarnedResponse {
    pub total_earned: u128,
}

/// How many records are currently locked and of the configured collection.
#[derive(Clone, Debug, PartialEq, Eq)]
pub struct TotalLockedResponse {
    pub count: u128,
}

/// One staked item of one account, as reported by a query.
#[derive(Clone, Debug, PartialEq, Eq)]
pub struct StakedNftResponse {
    pub account_address: String,
    pub nft_id: String,
    pub airdrop: u128,
    pub lock_time: u64,
}

/// All staked items of one account.
#[derive(Clone, Debug, PartialEq, Eq)]
pub struct StakedNftsResponse {
    pub nft_maps: Vec<StakedNftResponse>,
}

/// The answer to a [`QueryMsg`], one variant per question.
#[derive(Clone, Debug, PartialEq, Eq)]
pub enum QueryAnswer {
    Config(ConfigResponse),
    TotalEarned(TotalEarnedResponse),
    TotalLocked(TotalLockedResponse),
    StakedNfts(StakedNftsResponse),
}

/// A token denomination: the chain's native coin, or a fungible-token
/// contract.
#[derive(Clone, Debug, PartialEq, Eq)]
pub enum Denom {
    Native(String),
    Cw20(String),
}

/// One coin attached to a request: its denomination and its amount.
#[derive(Clone, Debug, PartialEq, Eq)]
pub struct Coin {
    pub denom: String,
    pub amount: u128,
}

/// An outbound transfer that the host environment must perform on the
/// ledger's behalf.
#[derive(Clone, Debug, PartialEq, Eq)]
pub enum TransferMsg {
    /// Send `amount` of the native coin `denom` to `to_address`.
    Bank { denom: String, amount: u128, to_address: String },
    /// Ask the fungible-token contract `contract_addr` to move `amount` to
    /// `recipient`.
    Cw20Transfer { contract_addr: String, amount: u128, recipient: String },
    /// Ask the collection `contract_addr` to hand item `token_id` back to
    /// `recipient`.
    NftTransfer { contract_addr: String, token_id: String, recipient: String },
}

} // verus!
