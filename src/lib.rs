//! Decision logic of a small HTTP gateway in front of a ledger RPC node:
//! key parsing, unit conversion, reply shaping and the airdrop
//! confirmation state machine. The network calls themselves are made by
//! the embedding program, which hands their outcomes to these functions.
pub mod keys;
pub mod responses;
pub mod handlers;
pub mod airdrop;
pub mod route;
