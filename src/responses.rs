use solana_sdk::account::Account;
use vstd::prelude::*;
use vstd::string::*;

verus! {

/// Number of lamports in one whole token.
pub const LAMPORTS_PER_SOL: u64 = 1_000_000_000;

#[verifier::external_type_specification]
#[verifier::external_body]
pub struct ExAccount(Account);

/// A token amount, held exactly as a count of lamports.
#[derive(Clone, Copy, Debug, PartialEq, Eq)]
pub struct Sol {
    pub lamports: u64,
}

impl Sol {
    /// Whole tokens in `lamports`.
    pub open spec fn spec_whole(self) -> int {
        self.lamports as int / LAMPORTS_PER_SOL as int
    }

    /// Lamports left over after the whole tokens.
    pub open spec fn spec_fraction(self) -> int {
        self.lamports as int % LAMPORTS_PER_SOL as int
    }

    /// Whole tokens in this amount.
    pub fn whole(&self) -> (r: u64)
        ensures
            r == self.spec_whole(),
    {
        self.lamports / LAMPORTS_PER_SOL
    }

    /// Lamports left over after the whole tokens, so that the amount is
    /// `whole() + fraction() / LAMPORTS_PER_SOL` tokens.
    pub fn fraction(&self) -> (r: u64)
        ensures
            r == self.spec_fraction(),
            r < LAMPORTS_PER_SOL,
            self.lamports == self.spec_whole() * LAMPORTS_PER_SOL + r,
    {
        self.lamports % LAMPORTS_PER_SOL
    }
}

/// Reply to a balance lookup.
#[derive(Debug)]
pub enum Re {
    Success { balance: Sol },
    Error { error: String },
}

/// Reply to an account lookup.
pub enum AccountInfo {
    Success(Account),
    Error { error: String },
}

/// Reply to a block lookup; `B` is the block record that the node returns.
pub enum BlockResponse<B> {
    Success(B),
    Error { error: String },
}

/// Reply to an airdrop request.
#[derive(Debug)]
pub enum Hash {
    Success { hash: String },
    Error { error: String },
}

/// The content of a reply that carries a text either way.
pub enum Reply {
    Success(Seq<char>),
    Failure(Seq<char>),
}

impl View for Hash {
    type V = Reply;

    open spec fn view(&self) -> Reply {
        match self {
            Hash::Success { hash } => Reply::Success(hash@),
            Hash::Error { error } => Reply::Failure(error@),
        }
    }
}

/// The text of a failed reply: `prefix` followed by `text`.
pub fn failure_text(prefix: &str, text: &str) -> (r: String)
    ensures
        r@ == prefix@ + text@,
{
    let mut s = String::from_str(prefix);
    s.append(text);
    s
}

} // verus!
