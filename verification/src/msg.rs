//! Commands, queries, and the values a command returns.
//!
//! Commands arrive already decoded; the engine receives plain values and
//! hands plain values back. Outbound side effects are returned as
//! instructions for the host to execute, never performed by the engine
//! itself.

use vstd::prelude::*;

verus! {

/// The host-supplied context of one invocation: the block the command
/// arrives in and the identity of the caller.
#[derive(Debug)]
pub struct Env {
    pub block_height: u64,
    pub block_time: u64,
    pub sender: String,
}

/// The one-time initialization command.
#[derive(Debug, PartialEq, Eq)]
pub struct InitMsg {
    pub prng_seed: String,
}

/// The commands the engine handles, one per invocation.
#[derive(Debug, PartialEq, Eq)]
pub enum HandleMsg {
    MakeOffer {
        id: u64,
        offeree: String,
        offeror_nft_contract: String,
        offeror_nft: String,
        offeror_code_hash: String,
        offeree_nft_contract: String,
        offeree_nft: String,
        offeree_code_hash: String,
        offeror_hands: Vec<u8>,
        offeror_draw_point: i8,
    },
    AcceptOffer { id: u64, offeree_hands: Vec<u8> },
    DeclineOffer { id: u64 },
    BetToken { denom: String, amount: u64, hand: u8, entropy: String },
    GenerateViewingKey { entropy: String, padding: Option<String> },
}

/// The queries the engine answers.
#[derive(Debug, PartialEq, Eq)]
pub enum QueryMsg {
    Offer { id: u64, address: Option<String>, viewing_key: Option<String> },
}

/// The ids of all stored offers.
#[derive(Debug, PartialEq, Eq)]
pub struct OffersResponse {
    pub ids: Vec<u64>,
}

/// One key-value entry of a handler's log.
#[derive(Debug, PartialEq, Eq)]
pub struct LogEntry {
    pub key: String,
    pub value: String,
}

/// An instruction the host executes on the engine's behalf: an asset
/// transfer through an asset registry, or a balance transfer.
#[derive(Debug, PartialEq, Eq)]
pub enum OutboundMsg {
    TransferNft {
        contract_addr: String,
        callback_code_hash: String,
        recipient: String,
        token_id: String,
    },
    BankSend {
        from_address: String,
        to_address: String,
        denom: String,
        amount: u64,
    },
}

/// What a successful command returns: outbound instructions, log
/// entries, and an optional data payload.
#[derive(Debug, PartialEq, Eq)]
pub struct HandleResponse {
    pub messages: Vec<OutboundMsg>,
    pub log: Vec<LogEntry>,
    pub data: Option<String>,
}

/// The facts the host reports from outside the engine before a command
/// runs: what the asset registry answered about the two staked assets,
/// and the on-ledger balances of the caller and of the house. A `None`
/// owner means the registry query failed.
#[derive(Debug)]
pub struct Externals {
    pub offeror_nft_owner: Option<String>,
    pub offeree_nft_owner: Option<String>,
    pub sender_balance: u128,
    pub banker_balance: u128,
}

} // verus!
