//! A latest-value cache for the ticker channel: a sibling consumer sharing
//! the message stream with the order books.

use vstd::prelude::*;

use crate::book::MsgHarvester;
use crate::structs::now;
use crate::structs::{DateTime, Message, OrderSide, WSTicker};

verus! {

/// The most recent ticker values seen on the stream.
#[derive(Debug)]
pub struct Ticker {
    pub product_id: String,
    pub best_ask: u64,
    pub best_bid: u64,
    pub last_size: u64,
    pub price: u64,
    pub sequence: usize,
    pub side: OrderSide,
    pub time: DateTime,
    pub trade_id: usize,
}

impl Ticker {
    /// A cache for `product_id` with every value still at its zero start.
    /// `time` starts at the current wall-clock time.
    pub fn new(product_id: String) -> (r: Ticker)
        ensures
            r.product_id == product_id,
            r.best_ask == 0,
            r.best_bid == 0,
            r.last_size == 0,
            r.price == 0,
            r.sequence == 0,
            r.side == OrderSide::Buy,
            r.trade_id == 0,
    {
        Ticker {
            product_id,
            best_ask: 0,
            best_bid: 0,
            last_size: 0,
            price: 0,
            sequence: 0,
            side: OrderSide::Buy,
            time: now(),
            trade_id: 0,
        }
    }
}

impl MsgHarvester for Ticker {
    /// The cache consumes every ticker message and passes all others on.
    open spec fn spec_harvest_result(&self, m: Message) -> Option<Message> {
        match m {
            Message::WSTicker(_) => None,
            _ => Some(m),
        }
    }

    /// A full ticker replaces every cached value; the empty form refreshes
    /// the sequence, product and price and keeps the rest; any other message
    /// leaves the cache untouched.
    open spec fn spec_harvest_post(&self, m: Message, post: Self) -> bool {
        match m {
            Message::WSTicker(
                WSTicker::Full {
                    best_ask,
                    best_bid,
                    last_size,
                    price,
                    product_id,
                    sequence,
                    side,
                    time,
                    trade_id,
                },
            ) => {
                post == (Ticker {
                    product_id,
                    best_ask,
                    best_bid,
                    last_size,
                    price,
                    sequence,
                    side,
                    time,
                    trade_id,
                })
            },
            Message::WSTicker(WSTicker::Empty { sequence, product_id, price }) => {
                post == (Ticker { product_id, price, sequence, ..*self })
            },
            _ => post == *self,
        }
    }

    /// Cache the values of a ticker message.
    fn harvest(&mut self, msg: Message) -> (r: Option<Message>) {
        match msg {
            Message::WSTicker(
                WSTicker::Full {
                    best_ask,
                    best_bid,
                    last_size,
                    price,
                    product_id,
                    sequence,
                    side,
                    time,
                    trade_id,
                },
            ) => {
                self.best_ask = best_ask;
                self.best_bid = best_bid;
                self.last_size = last_size;
                self.price = price;
                self.product_id = product_id;
                self.sequence = sequence;
                self.side = side;
                self.time = time;
                self.trade_id = trade_id;
                None
            },
            Message::WSTicker(WSTicker::Empty { sequence, product_id, price }) => {
                self.sequence = sequence;
                self.product_id = product_id;
                self.price = price;
                None
            },
            _ => Some(msg),
        }
    }
}

} // verus!
