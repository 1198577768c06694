use sol_gateway::airdrop::{
    airdrop_confirmation, airdrop_requested, airdrop_start, AirdropStep, RequestAirdrop,
    CONFIRM_RETRY_MS,
};
use sol_gateway::handlers::{
    account_lookup, account_reply, balance_lookup, balance_reply, block_query, block_reply,
    devnet_node, local_node, Commitment, TxDetails, TxEncoding,
};
use sol_gateway::keys::{parse_pubkey, KeyError, TxSignature};
use sol_gateway::responses::{failure_text, AccountInfo, BlockResponse, Re, Sol, LAMPORTS_PER_SOL};
use sol_gateway::route::parse_slot;
use solana_sdk::account::Account;
use solana_sdk::pubkey::Pubkey;
use solana_sdk::signature::Signature;
use std::str::FromStr;

const WSOL: &str = "So11111111111111111111111111111111111111112";
const TOO_LONG: &str = "So111111111111111111111111111111111111111121111";

fn error_of_balance(r: Re) -> String {
    match r {
        Re::Error { error } => error,
        other => panic!("expected an error, got {:?}", other),
    }
}

fn error_of_hash(h: sol_gateway::responses::Hash) -> String {
    match h {
        sol_gateway::responses::Hash::Error { error } => error,
        other => panic!("expected an error, got {:?}", other),
    }
}

fn finished_error(step: AirdropStep) -> String {
    match step {
        AirdropStep::Finish(h) => error_of_hash(h),
        other => panic!("expected a finished airdrop, got {:?}", other),
    }
}

#[test]
fn lamports_per_sol_matches_sdk() {
    assert_eq!(LAMPORTS_PER_SOL, solana_sdk::native_token::LAMPORTS_PER_SOL);
}

#[test]
fn parse_pubkey_decodes_bytes() {
    let k = parse_pubkey(WSOL).unwrap();
    assert_eq!(k.bytes, Pubkey::from_str(WSOL).unwrap().to_bytes());
    assert_ne!(k.bytes, [0u8; 32]);
}

#[test]
fn parse_pubkey_errors() {
    assert_eq!(parse_pubkey("0OIl"), Err(KeyError::Invalid));
    assert_eq!(parse_pubkey(TOO_LONG), Err(KeyError::WrongSize));
    assert_eq!(KeyError::Invalid.text(), "Invalid Base58 string");
    assert_eq!(KeyError::WrongSize.text(), "String is the wrong size");
}

#[test]
fn malformed_key_rejected_by_every_handler() {
    for bad in ["", "0OIl", "not a key", TOO_LONG] {
        assert_eq!(error_of_balance(balance_lookup(bad).unwrap_err()), "Wrong Pub key");
        match account_lookup(bad) {
            Err(AccountInfo::Error { error }) => assert!(error.starts_with("Wrong Pub key ")),
            _ => panic!("expected an error for {:?}", bad),
        }
        let req = RequestAirdrop { pubkey: bad.to_string(), amount: 1 };
        assert!(finished_error(airdrop_start(&req)).starts_with("Invalid pubkey: "));
    }
}

#[test]
fn malformed_key_messages() {
    match account_lookup("0OIl") {
        Err(AccountInfo::Error { error }) => {
            assert_eq!(error, "Wrong Pub key Invalid Base58 string")
        }
        _ => panic!("expected an error"),
    }
    let req = RequestAirdrop { pubkey: TOO_LONG.to_string(), amount: 1 };
    assert_eq!(finished_error(airdrop_start(&req)), "Invalid pubkey: String is the wrong size");
}

#[test]
fn valid_key_goes_to_the_node() {
    let expected = Pubkey::from_str(WSOL).unwrap().to_bytes();
    assert_eq!(balance_lookup(WSOL).unwrap().bytes, expected);
    match account_lookup(WSOL) {
        Ok(k) => assert_eq!(k.bytes, expected),
        Err(_) => panic!("expected a key"),
    }
}

#[test]
fn balance_converts_lamports() {
    match balance_reply(Ok(1_500_000_000)) {
        Re::Success { balance } => {
            assert_eq!(balance, Sol { lamports: 1_500_000_000 });
            assert_eq!(balance.whole(), 1);
            assert_eq!(balance.fraction(), 500_000_000);
            let tokens = balance.lamports as f64 / LAMPORTS_PER_SOL as f64;
            assert_eq!(tokens, 1.5);
        }
        other => panic!("expected a balance, got {:?}", other),
    }
}

#[test]
fn balance_edge_amounts() {
    let zero = Sol { lamports: 0 };
    assert_eq!((zero.whole(), zero.fraction()), (0, 0));
    let max = Sol { lamports: u64::MAX };
    assert_eq!(max.whole(), 18_446_744_073);
    assert_eq!(max.fraction(), 709_551_615);
}

#[test]
fn balance_repeatable() {
    let a = balance_reply(Ok(42));
    let b = balance_reply(Ok(42));
    match (a, b) {
        (Re::Success { balance: x }, Re::Success { balance: y }) => assert_eq!(x, y),
        _ => panic!("expected two balances"),
    }
}

#[test]
fn transport_errors_are_embedded() {
    let e = || Err::<u64, String>("connection refused".to_string());
    assert_eq!(error_of_balance(balance_reply(e())), "RPC URL error: connection refused");
    match account_reply(Err("connection refused".to_string())) {
        AccountInfo::Error { error } => assert_eq!(error, "RPC Url error: connection refused"),
        _ => panic!("expected an error"),
    }
    match block_reply::<u32>(Err("connection refused".to_string())) {
        BlockResponse::Error { error } => assert_eq!(error, "RPC Error: connection refused"),
        _ => panic!("expected an error"),
    }
    assert_eq!(
        finished_error(airdrop_requested(Err("connection refused".to_string()))),
        "Airdrop request failed: connection refused"
    );
    let sig = TxSignature { bytes: [7u8; 64] };
    assert_eq!(
        finished_error(airdrop_confirmation(sig, Err("connection refused".to_string()))),
        "Error confirming transaction: connection refused"
    );
}

#[test]
fn successes_are_relayed() {
    let account = Account { lamports: 5, ..Account::default() };
    match account_reply(Ok(account.clone())) {
        AccountInfo::Success(a) => assert_eq!(a, account),
        _ => panic!("expected the account"),
    }
    match block_reply(Ok(99u32)) {
        BlockResponse::Success(b) => assert_eq!(b, 99),
        _ => panic!("expected the block"),
    }
}

#[test]
fn failure_text_joins() {
    assert_eq!(failure_text("a: ", "b"), "a: b");
    assert_eq!(failure_text("", ""), "");
}

#[test]
fn airdrop_start_converts_amount() {
    let req = RequestAirdrop { pubkey: WSOL.to_string(), amount: 2 };
    match airdrop_start(&req) {
        AirdropStep::Request { receiver, lamports } => {
            assert_eq!(receiver.bytes, Pubkey::from_str(WSOL).unwrap().to_bytes());
            assert_eq!(lamports, 2_000_000_000);
        }
        other => panic!("expected a request, got {:?}", other),
    }
}

#[test]
fn airdrop_amount_too_large() {
    let req = RequestAirdrop { pubkey: WSOL.to_string(), amount: u64::MAX / LAMPORTS_PER_SOL + 1 };
    assert_eq!(finished_error(airdrop_start(&req)), "Airdrop amount too large");
    let req = RequestAirdrop { pubkey: WSOL.to_string(), amount: u64::MAX / LAMPORTS_PER_SOL };
    assert!(matches!(airdrop_start(&req), AirdropStep::Request { .. }));
}

fn run_confirmations(sig: TxSignature, answers: Vec<Result<bool, String>>) -> (AirdropStep, usize) {
    let mut step = airdrop_requested(Ok(sig));
    let mut asked = 0usize;
    let mut answers = answers.into_iter();
    while let AirdropStep::Confirm { signature, delay_ms } = step {
        assert_eq!(delay_ms, if asked == 0 { 0 } else { CONFIRM_RETRY_MS });
        let answer = answers.next().expect("asked past the last answer");
        asked += 1;
        step = airdrop_confirmation(signature, answer);
    }
    (step, asked)
}

#[test]
fn airdrop_confirms_after_pending_rounds() {
    let bytes = [9u8; 64];
    let sig = TxSignature { bytes };
    let mut answers: Vec<Result<bool, String>> = vec![Ok(false); 3];
    answers.push(Ok(true));
    let (step, asked) = run_confirmations(sig, answers);
    assert_eq!(asked, 4);
    match step {
        AirdropStep::Finish(sol_gateway::responses::Hash::Success { hash }) => {
            assert_eq!(hash, Signature::from(bytes).to_string());
            assert_ne!(hash, "");
        }
        other => panic!("expected success, got {:?}", other),
    }
}

#[test]
fn airdrop_error_stops_polling() {
    let sig = TxSignature { bytes: [1u8; 64] };
    let answers = vec![Err("node down".to_string()), Ok(true)];
    let (step, asked) = run_confirmations(sig, answers);
    assert_eq!(asked, 1);
    assert_eq!(finished_error(step), "Error confirming transaction: node down");
}

#[test]
fn signature_text_is_base58() {
    let sig = TxSignature { bytes: [0u8; 64] };
    assert_eq!(sig.to_text(), "1".repeat(64));
}

#[test]
fn block_query_settings() {
    let q = block_query(12345);
    assert_eq!(q.slot, 12345);
    assert_eq!(q.encoding, TxEncoding::Base58);
    assert_eq!(q.details, TxDetails::Full);
    assert!(!q.rewards);
    assert_eq!(q.commitment, Commitment::Finalized);
    assert_eq!(q.max_supported_transaction_version, Some(0));
}

#[test]
fn endpoints() {
    let local = local_node();
    assert_eq!(local.url, "http://127.0.0.1:8899");
    assert_eq!(local.commitment, Commitment::Confirmed);
    let devnet = devnet_node();
    assert_eq!(devnet.url, "https://api.devnet.solana.com");
    assert_eq!(devnet.commitment, Commitment::Confirmed);
}

#[test]
fn block_slot_segment_rejected() {
    assert_eq!(parse_slot("abc"), None);
    assert_eq!(parse_slot(""), None);
    assert_eq!(parse_slot("+"), None);
    assert_eq!(parse_slot("12a"), None);
    assert_eq!(parse_slot("-1"), None);
    assert_eq!(parse_slot("18446744073709551616"), None);
}

#[test]
fn block_slot_segment_accepted() {
    assert_eq!(parse_slot("0"), Some(0));
    assert_eq!(parse_slot("123"), Some(123));
    assert_eq!(parse_slot("+7"), Some(7));
    assert_eq!(parse_slot("18446744073709551615"), Some(u64::MAX));
    for s in ["0", "42", "+9", "abc", "99999999999999999999", "007"] {
        assert_eq!(parse_slot(s), s.parse::<u64>().ok());
    }
}
