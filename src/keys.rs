use solana_sdk::pubkey::{ParsePubkeyError, Pubkey};
use solana_sdk::signature::Signature;
use std::str::FromStr;
use vstd::prelude::*;

verus! {

/// A ledger account address, held as its raw bytes.
#[derive(Clone, Copy, Debug, PartialEq, Eq)]
pub struct PublicKey {
    pub bytes: [u8; 32],
}

impl View for PublicKey {
    type V = Seq<u8>;

    open spec fn view(&self) -> Seq<u8> {
        self.bytes@
    }
}

/// A transaction signature, held as its raw bytes.
#[derive(Clone, Copy, Debug, PartialEq, Eq)]
pub struct TxSignature {
    pub bytes: [u8; 64],
}

/// Why a text is not an account address.
#[derive(Clone, Copy, Debug, PartialEq, Eq)]
pub enum KeyError {
    WrongSize,
    Invalid,
}

/// What decoding the base58 text `s` as an account address gives.
pub uninterp spec fn decode_pubkey(s: Seq<char>) -> Result<Seq<u8>, KeyError>;

/// The base58 text of the signature bytes `b`.
pub uninterp spec fn signature_base58(b: Seq<u8>) -> Seq<char>;

/// The sentence that describes a key error.
pub open spec fn key_error_text(e: KeyError) -> Seq<char> {
    match e {
        KeyError::WrongSize => "String is the wrong size"@,
        KeyError::Invalid => "Invalid Base58 string"@,
    }
}

/// Relies on `Pubkey::from_str` of solana-pubkey, which decodes base58 text
/// into the 32 bytes of an address and tells a wrong size from a bad text.
#[verifier::external_body]
fn decode_pubkey_text(s: &str) -> (r: Result<PublicKey, KeyError>)
    ensures
        match r {
            Ok(k) => decode_pubkey(s@) == Ok::<Seq<u8>, KeyError>(k@),
            Err(e) => decode_pubkey(s@) == Err::<Seq<u8>, KeyError>(e),
        },
{
    match Pubkey::from_str(s) {
        Ok(k) => Ok(PublicKey { bytes: k.to_bytes() }),
        Err(ParsePubkeyError::WrongSize) => Err(KeyError::WrongSize),
        Err(ParsePubkeyError::Invalid) => Err(KeyError::Invalid),
    }
}

/// Relies on the `Display` of solana-pubkey's `ParsePubkeyError`: one fixed
/// sentence for each kind of error.
#[verifier::external_body]
fn describe_key_error(e: KeyError) -> (r: String)
    ensures
        r@ == key_error_text(e),
{
    match e {
        KeyError::WrongSize => ParsePubkeyError::WrongSize.to_string(),
        KeyError::Invalid => ParsePubkeyError::Invalid.to_string(),
    }
}

/// Relies on the `Display` of solana-signature's `Signature`: the base58 text
/// of its bytes.
#[verifier::external_body]
fn signature_text_of(sig: &TxSignature) -> (r: String)
    ensures
        r@ == signature_base58(sig.bytes@),
{
    Signature::from(sig.bytes).to_string()
}

/// Parses an account address from its base58 text.
pub fn parse_pubkey(s: &str) -> (r: Result<PublicKey, KeyError>)
    ensures
        match decode_pubkey(s@) {
            Ok(b) => r matches Ok(k) && k@ == b,
            Err(e) => r == Err::<PublicKey, KeyError>(e),
        },
{
    decode_pubkey_text(s)
}

impl KeyError {
    /// The sentence that describes this error.
    pub fn text(&self) -> (r: String)
        ensures
            r@ == key_error_text(*self),
    {
        describe_key_error(*self)
    }
}

impl TxSignature {
    /// The base58 text of this signature.
    pub fn to_text(&self) -> (r: String)
        ensures
            r@ == signature_base58(self.bytes@),
    {
        signature_text_of(self)
    }
}

} // verus!
