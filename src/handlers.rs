use crate::keys::{decode_pubkey, key_error_text, parse_pubkey, PublicKey};
use crate::responses::{failure_text, AccountInfo, BlockResponse, Re, Sol};
use solana_sdk::account::Account;
use vstd::prelude::*;
use vstd::string::*;

verus! {

/// How final a ledger state must be before the node reports it.
#[derive(Clone, Copy, Debug, PartialEq, Eq)]
pub enum Commitment {
    Confirmed,
    Finalized,
}

/// An RPC node to talk to, and the commitment that its client asks for.
pub struct Endpoint {
    pub url: String,
    pub commitment: Commitment,
}

/// Encoding in which a block's transactions come back.
#[derive(Clone, Copy, Debug, PartialEq, Eq)]
pub enum TxEncoding {
    Base58,
}

/// How much of each transaction a block carries.
#[derive(Clone, Copy, Debug, PartialEq, Eq)]
pub enum TxDetails {
    Full,
}

/// The block lookup that is sent to the node.
#[derive(Clone, Copy, Debug, PartialEq, Eq)]
pub struct BlockQuery {
    pub slot: u64,
    pub encoding: TxEncoding,
    pub details: TxDetails,
    pub rewards: bool,
    pub commitment: Commitment,
    pub max_supported_transaction_version: Option<u8>,
}

/// The local node that serves balance, account and airdrop requests.
pub fn local_node() -> (r: Endpoint)
    ensures
        r.url@ == "http://127.0.0.1:8899"@,
        r.commitment == Commitment::Confirmed,
{
    Endpoint { url: String::from_str("http://127.0.0.1:8899"), commitment: Commitment::Confirmed }
}

/// The public development node that serves block lookups.
pub fn devnet_node() -> (r: Endpoint)
    ensures
        r.url@ == "https://api.devnet.solana.com"@,
        r.commitment == Commitment::Confirmed,
{
    Endpoint {
        url: String::from_str("https://api.devnet.solana.com"),
        commitment: Commitment::Confirmed,
    }
}

/// First step of a balance lookup: the address to ask the node about, or the
/// reply when `pubkey` is no address (the node is then not asked).
pub fn balance_lookup(pubkey: &str) -> (r: Result<PublicKey, Re>)
    ensures
        match decode_pubkey(pubkey@) {
            Ok(b) => r matches Ok(k) && k@ == b,
            Err(_) => r matches Err(Re::Error { error }) && error@ == "Wrong Pub key"@,
        },
{
    match parse_pubkey(pubkey) {
        Ok(k) => Ok(k),
        Err(_) => Err(Re::Error { error: String::from_str("Wrong Pub key") }),
    }
}

/// The balance reply for a lamport count.
pub open spec fn balance_of(lamports: u64) -> Re {
    Re::Success { balance: Sol { lamports } }
}

/// Last step of a balance lookup: the reply for what the node answered, a
/// lamport count or the text of its error.
pub fn balance_reply(rpc: Result<u64, String>) -> (r: Re)
    ensures
        match rpc {
            Ok(l) => r == balance_of(l),
            Err(e) => r matches Re::Error { error } && error@ == "RPC URL error: "@ + e@,
        },
{
    match rpc {
        Ok(l) => Re::Success { balance: Sol { lamports: l } },
        Err(e) => Re::Error { error: failure_text("RPC URL error: ", e.as_str()) },
    }
}

/// Repeating a balance lookup on an unchanged ledger gives the same reply,
/// and that reply holds the lamport count split into whole tokens and the
/// lamports left over.
pub proof fn lemma_balance_repeatable(first: u64, second: u64)
    requires
        first == second,
    ensures
        balance_of(first) == balance_of(second),
        balance_of(first) matches Re::Success { balance } && balance.spec_whole()
            == first / 1_000_000_000 && balance.spec_fraction() == first % 1_000_000_000,
{
}

/// First step of an account lookup: the address to ask the node about, or
/// the reply when `pubkey` is no address (the node is then not asked).
pub fn account_lookup(pubkey: &str) -> (r: Result<PublicKey, AccountInfo>)
    ensures
        match decode_pubkey(pubkey@) {
            Ok(b) => r matches Ok(k) && k@ == b,
            Err(e) => r matches Err(AccountInfo::Error { error }) && error@ == "Wrong Pub key "@
                + key_error_text(e),
        },
{
    match parse_pubkey(pubkey) {
        Ok(k) => Ok(k),
        Err(e) => {
            let text = e.text();
            Err(AccountInfo::Error { error: failure_text("Wrong Pub key ", text.as_str()) })
        },
    }
}

/// Last step of an account lookup: the reply for what the node answered, the
/// account record or the text of its error.
pub fn account_reply(rpc: Result<Account, String>) -> (r: AccountInfo)
    ensures
        match rpc {
            Ok(a) => r == AccountInfo::Success(a),
            Err(e) => r matches AccountInfo::Error { error } && error@ == "RPC Url error: "@ + e@,
        },
{
    match rpc {
        Ok(a) => AccountInfo::Success(a),
        Err(e) => AccountInfo::Error { error: failure_text("RPC Url error: ", e.as_str()) },
    }
}

/// The block lookup for `slot`: full transactions in base58, no rewards,
/// finalized commitment, transaction versions up to 0.
pub fn block_query(slot: u64) -> (r: BlockQuery)
    ensures
        r == (BlockQuery {
            slot,
            encoding: TxEncoding::Base58,
            details: TxDetails::Full,
            rewards: false,
            commitment: Commitment::Finalized,
            max_supported_transaction_version: Some(0u8),
        }),
{
    BlockQuery {
        slot,
        encoding: TxEncoding::Base58,
        details: TxDetails::Full,
        rewards: false,
        commitment: Commitment::Finalized,
        max_supported_transaction_version: Some(0),
    }
}

/// The reply for what the node answered to a block lookup, the block record
/// or the text of its error.
pub fn block_reply<B>(rpc: Result<B, String>) -> (r: BlockResponse<B>)
    ensures
        match rpc {
            Ok(b) => r == BlockResponse::Success(b),
            Err(e) => r matches BlockResponse::Error { error } && error@ == "RPC Error: "@ + e@,
        },
{
    match rpc {
        Ok(b) => BlockResponse::Success(b),
        Err(e) => BlockResponse::Error { error: failure_text("RPC Error: ", e.as_str()) },
    }
}

} // verus!
