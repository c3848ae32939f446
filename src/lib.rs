//! Decision core of a token sniper: extraction of token-creation events from
//! program logs, the safety screen, the position store and its profit-target
//! state machine, the subscription recovery protocol and amount formatting.
pub mod text;
pub mod extract;
pub mod position;
pub mod store;
pub mod filter;
pub mod intake;
pub mod subscription;
pub mod amounts;
pub mod keys;
pub mod config;
pub mod retry;
pub mod cli;
