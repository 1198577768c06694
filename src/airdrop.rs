use crate::keys::{
    decode_pubkey, key_error_text, parse_pubkey, signature_base58, PublicKey, TxSignature,
};
use crate::responses;
use crate::responses::{failure_text, Reply, LAMPORTS_PER_SOL};
use vstd::prelude::*;
use vstd::string::*;

verus! {

/// Pause between two confirmation checks of a pending airdrop.
pub const CONFIRM_RETRY_MS: u64 = 500;

/// An airdrop request: the receiving address as text and the amount in whole
/// tokens.
#[derive(Debug)]
pub struct RequestAirdrop {
    pub pubkey: String,
    pub amount: u64,
}

/// What the caller does next on behalf of an airdrop request.
#[derive(Debug)]
pub enum AirdropStep {
    /// Ask the node to send `lamports` to `receiver`.
    Request { receiver: PublicKey, lamports: u64 },
    /// Wait `delay_ms`, then ask the node whether `signature` is confirmed.
    Confirm { signature: TxSignature, delay_ms: u64 },
    /// Reply with this and stop.
    Finish(responses::Hash),
}

/// State of the confirmation polling after one answer of the node.
pub enum Poll {
    Pending,
    Finished(Reply),
}

/// A confirmation answer of the node, with its error as text.
pub open spec fn check_view(check: Result<bool, String>) -> Result<bool, Seq<char>> {
    match check {
        Ok(b) => Ok(b),
        Err(e) => Err(e@),
    }
}

/// One confirmation answer for the transaction whose signature text is `sig`.
pub open spec fn confirm_step(sig: Seq<char>, check: Result<bool, Seq<char>>) -> Poll {
    match check {
        Ok(true) => Poll::Finished(Reply::Success(sig)),
        Ok(false) => Poll::Pending,
        Err(e) => Poll::Finished(Reply::Failure("Error confirming transaction: "@ + e)),
    }
}

/// Where a sequence of confirmation answers leaves the polling: the first
/// answer that finishes it decides, and later answers are never asked for.
pub open spec fn poll_outcome(sig: Seq<char>, checks: Seq<Result<bool, Seq<char>>>) -> Poll
    decreases checks.len(),
{
    if checks.len() == 0 {
        Poll::Pending
    } else {
        match confirm_step(sig, checks[0]) {
            Poll::Pending => poll_outcome(sig, checks.drop_first()),
            done => done,
        }
    }
}

/// The amount of an airdrop in lamports, when it fits in 64 bits.
pub open spec fn airdrop_lamports(amount: u64) -> Option<u64> {
    if amount * LAMPORTS_PER_SOL <= u64::MAX {
        Some((amount * LAMPORTS_PER_SOL) as u64)
    } else {
        None
    }
}

/// First step of an airdrop: check the address, convert the amount to
/// lamports, and ask for the transfer; an address that does not decode, or an
/// amount too large to count in lamports, ends the request at once.
pub fn airdrop_start(req: &RequestAirdrop) -> (r: AirdropStep)
    ensures
        match decode_pubkey(req.pubkey@) {
            Err(e) => r matches AirdropStep::Finish(h) && h@ == Reply::Failure(
                "Invalid pubkey: "@ + key_error_text(e),
            ),
            Ok(b) => match airdrop_lamports(req.amount) {
                Some(l) => r matches AirdropStep::Request { receiver, lamports } && receiver@
                    == b && lamports == l,
                None => r matches AirdropStep::Finish(h) && h@ == Reply::Failure(
                    "Airdrop amount too large"@,
                ),
            },
        },
{
    let receiver = match parse_pubkey(req.pubkey.as_str()) {
        Ok(k) => k,
        Err(e) => {
            let text = e.text();
            return AirdropStep::Finish(
                responses::Hash::Error {
                    error: failure_text("Invalid pubkey: ", text.as_str()),
                },
            );
        },
    };
    match req.amount.checked_mul(LAMPORTS_PER_SOL) {
        Some(lamports) => AirdropStep::Request { receiver, lamports },
        None => AirdropStep::Finish(
            responses::Hash::Error { error: String::from_str("Airdrop amount too large") },
        ),
    }
}

/// Second step of an airdrop: what the node answered to the transfer request,
/// the transaction's signature or the text of its error.
pub fn airdrop_requested(rpc: Result<TxSignature, String>) -> (r: AirdropStep)
    ensures
        match rpc {
            Ok(sig) => r == (AirdropStep::Confirm { signature: sig, delay_ms: 0 }),
            Err(e) => r matches AirdropStep::Finish(h) && h@ == Reply::Failure(
                "Airdrop request failed: "@ + e@,
            ),
        },
{
    match rpc {
        Ok(sig) => AirdropStep::Confirm { signature: sig, delay_ms: 0 },
        Err(e) => AirdropStep::Finish(
            responses::Hash::Error {
                error: failure_text("Airdrop request failed: ", e.as_str()),
            },
        ),
    }
}

/// Later steps of an airdrop: what the node answered when asked whether
/// `signature` is confirmed. A pending transaction is asked about again
/// after a pause, with no limit on the number of rounds.
pub fn airdrop_confirmation(signature: TxSignature, check: Result<bool, String>) -> (r:
    AirdropStep)
    ensures
        match confirm_step(signature_base58(signature.bytes@), check_view(check)) {
            Poll::Pending => r == (AirdropStep::Confirm { signature, delay_ms: CONFIRM_RETRY_MS }),
            Poll::Finished(reply) => r matches AirdropStep::Finish(h) && h@ == reply,
        },
{
    match check {
        Ok(true) => AirdropStep::Finish(responses::Hash::Success { hash: signature.to_text() }),
        Ok(false) => AirdropStep::Confirm { signature, delay_ms: CONFIRM_RETRY_MS },
        Err(e) => AirdropStep::Finish(
            responses::Hash::Error {
                error: failure_text("Error confirming transaction: ", e.as_str()),
            },
        ),
    }
}

/// After any number of "not yet confirmed" answers, a "confirmed" answer
/// finishes the airdrop with the signature's text.
pub proof fn lemma_confirmed_after_pending(sig: Seq<char>, n: nat)
    ensures
        poll_outcome(sig, Seq::new(n, |i: int| Ok::<bool, Seq<char>>(false)).push(Ok(true)))
            == Poll::Finished(Reply::Success(sig)),
    decreases n,
{
    let checks = Seq::new(n, |i: int| Ok::<bool, Seq<char>>(false)).push(Ok(true));
    if n > 0 {
        let rest = Seq::new((n - 1) as nat, |i: int| Ok::<bool, Seq<char>>(false)).push(Ok(true));
        assert(checks.drop_first() =~= rest);
        lemma_confirmed_after_pending(sig, (n - 1) as nat);
    }
}

/// While every answer is "not yet confirmed", the airdrop stays pending.
pub proof fn lemma_pending_while_unconfirmed(sig: Seq<char>, n: nat)
    ensures
        poll_outcome(sig, Seq::new(n, |i: int| Ok::<bool, Seq<char>>(false))) == Poll::Pending,
    decreases n,
{
    let checks = Seq::new(n, |i: int| Ok::<bool, Seq<char>>(false));
    if n > 0 {
        let rest = Seq::new((n - 1) as nat, |i: int| Ok::<bool, Seq<char>>(false));
        assert(checks.drop_first() =~= rest);
        lemma_pending_while_unconfirmed(sig, (n - 1) as nat);
    }
}

/// An error on the first confirmation check ends the airdrop with that error,
/// whatever the node would have answered afterwards.
pub proof fn lemma_error_stops_polling(
    sig: Seq<char>,
    e: Seq<char>,
    rest: Seq<Result<bool, Seq<char>>>,
)
    ensures
        poll_outcome(sig, seq![Err::<bool, Seq<char>>(e)] + rest) == Poll::Finished(
            Reply::Failure("Error confirming transaction: "@ + e),
        ),
{
    let checks = seq![Err::<bool, Seq<char>>(e)] + rest;
    assert(checks[0] == Err::<bool, Seq<char>>(e));
}

} // verus!
