//! Client-side building blocks for a cryptocurrency exchange's level-2
//! market-data feed: typed feed messages, an order-book replica that ingests
//! snapshot and incremental update messages, and a harvester chain that lets
//! several stateful consumers share one message stream.

use vstd::prelude::*;

pub mod book;
pub mod conduit;
pub mod errors;
pub mod structs;

verus! {

pub const MAIN_URL: &'static str = "https://api.pro.coinbase.com";

pub const SANDBOX_URL: &'static str = "https://api-public.sandbox.pro.coinbase.com";

pub const WS_URL: &'static str = "wss://ws-feed.pro.coinbase.com";

pub const WS_SANDBOX_URL: &'static str = "wss://ws-feed-public.sandbox.pro.coinbase.com";

} // verus!
