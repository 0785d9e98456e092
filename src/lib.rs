//! On-ledger logic of a stake-pool lottery: typed account records, account checks, address
//! derivation, and the four state-transition handlers (create, initialize, split shares, draw).

pub mod account;
pub mod check;
pub mod codec;
pub mod create;
pub mod error;
pub mod instruction;
pub mod lemmas;
pub mod pda;
pub mod processor;
pub mod token;
pub mod state;

