//! The protocol messages of the sequencer, with their JSON form.

pub mod genesis;
pub mod memos;
pub mod orderbook;
pub mod price_feed;
pub mod transaction;
pub mod transactions;
