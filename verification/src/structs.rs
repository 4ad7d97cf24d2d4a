//! The typed values that flow between the exchange feed, the harvesters and
//! the caller.
//!
//! Prices and sizes arrive on the wire as decimal strings.  Inside this crate
//! each is held as a `u64` key under an order-preserving encoding chosen by
//! the boundary that parses the wire (for non-negative quantities the IEEE-754
//! bit pattern is such an encoding): equal quantities get equal keys, larger
//! quantities get larger keys, and the quantity zero gets the key `0`.  The
//! book and ticker logic only ever compares these keys and tests them against
//! zero, so it is verified for every choice of such an encoding.

use vstd::prelude::*;

use crate::errors::CBProError;

verus! {

/// A feed timestamp: milliseconds since the Unix epoch.
pub type DateTime = i64;

/// Relies on chrono's `Utc::now`, read out through `DateTime::timestamp_millis`:
/// the current wall-clock time in milliseconds since the Unix epoch.  Nothing
/// is promised of the value; `Utc::now` itself aborts if the system clock
/// reads before the epoch.
#[verifier::external_body]
pub fn now() -> DateTime {
    chrono::Utc::now().timestamp_millis()
}

/// Which side of the book an order or trade belongs to.
#[derive(Clone, Copy, Debug, PartialEq, Eq, Structural)]
pub enum OrderSide {
    Buy,
    Sell,
}

/// One price level of a level-2 snapshot: the full size resting at a price.
#[derive(Clone, Copy, Debug, PartialEq, Eq, Structural)]
pub struct Level2SnapshotRecord {
    pub price: u64,
    pub size: u64,
}

/// One change record of a level-2 update.  The side arrives as wire text
/// (`"buy"` or `"sell"`); anything else marks the record as malformed, and the
/// book skips exactly that record.
#[derive(Clone, Debug, PartialEq)]
pub struct Level2UpdateRecord {
    pub side: String,
    pub price: u64,
    pub size: u64,
}

/// A REST order-book snapshot: the full depth of both sides at a sequence
/// number, at one of three levels of record detail.
#[derive(Debug, PartialEq)]
pub struct Book<T> {
    pub sequence: usize,
    pub bids: Vec<T>,
    pub asks: Vec<T>,
}

/// The level of detail a REST order-book record type carries.
pub trait BookLevel: Sized {
    /// The level this record type belongs to.
    spec fn spec_level() -> u8;

    /// The level this record type belongs to.
    fn level() -> (r: u8)
        ensures
            r == Self::spec_level(),
    ;
}

/// A level-1 record: one aggregated side of the inside quote.
#[derive(Clone, Copy, Debug, PartialEq, Eq, Structural)]
pub struct BookRecordL1 {
    pub price: u64,
    pub size: u64,
    pub num_orders: usize,
}

impl BookLevel for BookRecordL1 {
    open spec fn spec_level() -> u8 {
        1
    }

    fn level() -> (r: u8) {
        1
    }
}

/// A level-2 record: one aggregated price level.
#[derive(Clone, Copy, Debug, PartialEq, Eq, Structural)]
pub struct BookRecordL2 {
    pub price: u64,
    pub size: u64,
    pub num_orders: usize,
}

impl BookLevel for BookRecordL2 {
    open spec fn spec_level() -> u8 {
        2
    }

    fn level() -> (r: u8) {
        2
    }
}

/// A level-3 record: one resting order, identified by the 128-bit value of
/// its order id.
#[derive(Clone, Copy, Debug, PartialEq, Eq, Structural)]
pub struct BookRecordL3 {
    pub price: u64,
    pub size: u64,
    pub order_id: u128,
}

impl BookLevel for BookRecordL3 {
    open spec fn spec_level() -> u8 {
        3
    }

    fn level() -> (r: u8) {
        3
    }
}

/// The authentication block attached to a private subscription.
#[derive(Clone, Debug, PartialEq)]
pub struct Auth {
    pub signature: String,
    pub key: String,
    pub passphrase: String,
    pub timestamp: String,
}

/// API credentials as loaded by the caller.
#[derive(Clone, Debug)]
pub struct Credentials {
    pub key: String,
    pub secret: String,
    pub passphrase: String,
}

/// The feed channels a client can subscribe to.
#[derive(Clone, Copy, Debug, PartialEq, Eq, Structural)]
pub enum WSChannelType {
    Full,
    Heartbeat,
    Level2,
    Matches,
    Status,
    Ticker,
    User,
}

/// A channel request: either a bare channel or one scoped to products.
#[derive(Clone, Debug, PartialEq)]
pub enum WSChannel {
    Name(WSChannelType),
    WithProduct { name: WSChannelType, product_ids: Vec<String> },
}

/// A subscription command, with credentials when the channel needs them.
#[derive(Clone, Debug, PartialEq)]
pub struct WSSubscribe {
    pub channels: Vec<WSChannel>,
    pub auth: Option<Auth>,
}

/// A ticker message: either the full trade-by-trade form or the initial
/// sequence-only form the feed sends right after subscribing.
#[derive(Clone, Debug, PartialEq)]
pub enum WSTicker {
    Full {
        best_ask: u64,
        best_bid: u64,
        last_size: u64,
        price: u64,
        product_id: String,
        sequence: usize,
        side: OrderSide,
        time: DateTime,
        trade_id: usize,
    },
    Empty { sequence: usize, product_id: String, price: u64 },
}

impl WSTicker {
    /// The last trade price, present in both forms.
    pub fn price(&self) -> (r: u64)
        ensures
            r == (match self {
                WSTicker::Full { price, .. } => *price,
                WSTicker::Empty { price, .. } => *price,
            }),
    {
        match self {
            WSTicker::Full { price, .. } => *price,
            WSTicker::Empty { price, .. } => *price,
        }
    }

    /// The trade time, which only the full form carries.
    pub fn time(&self) -> (r: Option<DateTime>)
        ensures
            r == (match self {
                WSTicker::Full { time, .. } => Some(*time),
                WSTicker::Empty { .. } => None::<DateTime>,
            }),
    {
        match self {
            WSTicker::Full { time, .. } => Some(*time),
            WSTicker::Empty { .. } => None,
        }
    }

    /// The feed sequence number, present in both forms.
    pub fn sequence(&self) -> (r: usize)
        ensures
            r == (match self {
                WSTicker::Full { sequence, .. } => *sequence,
                WSTicker::Empty { sequence, .. } => *sequence,
            }),
    {
        match self {
            WSTicker::Full { sequence, .. } => *sequence,
            WSTicker::Empty { sequence, .. } => *sequence,
        }
    }

    /// The best bid at trade time, which only the full form carries.
    pub fn bid(&self) -> (r: Option<u64>)
        ensures
            r == (match self {
                WSTicker::Full { best_bid, .. } => Some(*best_bid),
                WSTicker::Empty { .. } => None::<u64>,
            }),
    {
        match self {
            WSTicker::Full { best_bid, .. } => Some(*best_bid),
            WSTicker::Empty { .. } => None,
        }
    }

    /// The best ask at trade time, which only the full form carries.
    pub fn ask(&self) -> (r: Option<u64>)
        ensures
            r == (match self {
                WSTicker::Full { best_ask, .. } => Some(*best_ask),
                WSTicker::Empty { .. } => None::<u64>,
            }),
    {
        match self {
            WSTicker::Full { best_ask, .. } => Some(*best_ask),
            WSTicker::Empty { .. } => None,
        }
    }
}

/// An account's balances, keyed by the 128-bit values of its UUIDs.
#[derive(Clone, Debug, PartialEq)]
pub struct Account {
    pub available: u64,
    pub balance: u64,
    pub currency: String,
    pub hold: u64,
    pub id: u128,
    pub profile_id: u128,
}

/// The kind of entry an account-history line records.
#[derive(Clone, Copy, Debug, PartialEq, Eq, Structural)]
pub enum AccountHistoryType {
    Fee,
    Match,
    NotSet,
    Rebate,
    Transfer,
}

impl Default for AccountHistoryType {
    /// A line whose kind is not yet known.
    fn default() -> (r: Self)
        ensures
            r == AccountHistoryType::NotSet,
    {
        AccountHistoryType::NotSet
    }
}

/// The direction of an account-history transfer.
#[derive(Clone, Copy, Debug, PartialEq, Eq, Structural)]
pub enum AccountHistoryDetailsTransferType {
    Deposit,
    Withdraw,
}

/// The per-kind payload of an account-history line.  Order and transfer ids
/// are carried as the 128-bit values of the exchange's UUIDs.
#[derive(Clone, Debug, PartialEq)]
pub enum AccountHistoryDetails {
    Fee { order_id: u128, product_id: String, trade_id: usize },
    Match { order_id: u128, product_id: String, trade_id: usize },
    Rebate { order_id: u128, product_id: String, trade_id: usize },
    Transfer { transfer_id: u128, transfer_type: AccountHistoryDetailsTransferType },
}

impl<'a> From<&'a AccountHistoryDetails> for AccountHistoryType {
    /// The kind that a payload belongs to.
    fn from(item: &'a AccountHistoryDetails) -> (r: Self) {
        match item {
            AccountHistoryDetails::Fee { .. } => AccountHistoryType::Fee,
            AccountHistoryDetails::Match { .. } => AccountHistoryType::Match,
            AccountHistoryDetails::Transfer { .. } => AccountHistoryType::Transfer,
            AccountHistoryDetails::Rebate { .. } => AccountHistoryType::Rebate,
        }
    }
}

impl<'a> vstd::std_specs::convert::FromSpecImpl<&'a AccountHistoryDetails> for AccountHistoryType {
    open spec fn obeys_from_spec() -> bool {
        true
    }

    open spec fn from_spec(item: &'a AccountHistoryDetails) -> Self {
        match item {
            AccountHistoryDetails::Fee { .. } => AccountHistoryType::Fee,
            AccountHistoryDetails::Match { .. } => AccountHistoryType::Match,
            AccountHistoryDetails::Transfer { .. } => AccountHistoryType::Transfer,
            AccountHistoryDetails::Rebate { .. } => AccountHistoryType::Rebate,
        }
    }
}

/// One line of an account's history.
#[derive(Clone, Debug, PartialEq)]
pub struct AccountHistory {
    pub _type: AccountHistoryType,
    pub amount: u64,
    pub balance: u64,
    pub details: AccountHistoryDetails,
    pub created_at: DateTime,
    pub id: usize,
}

/// What an account hold is held for.
#[derive(Clone, Copy, Debug, PartialEq, Eq, Structural)]
pub enum AccountHoldsType {
    Order,
    Transfer,
}

/// A hold on account funds.
#[derive(Clone, Debug, PartialEq)]
pub struct AccountHolds {
    pub _ref: u128,
    pub _type: AccountHoldsType,
    pub amount: u64,
    pub account_id: u128,
    pub created_at: DateTime,
    pub id: u128,
    pub updated_at: DateTime,
}

/// One historical candle: its start time, then low, high, open, close and
/// volume.
#[derive(Clone, Copy, Debug, PartialEq, Eq, Structural)]
pub struct Candle(pub usize, pub u64, pub u64, pub u64, pub u64, pub u64);

/// A currency the exchange lists.
#[derive(Clone, Debug, PartialEq)]
pub struct Currency {
    pub id: String,
    pub name: String,
    pub min_size: u64,
}

/// One fill of an order.
#[derive(Clone, Debug, PartialEq)]
pub struct Fill {
    pub trade_id: usize,
    pub product_id: String,
    pub price: u64,
    pub size: u64,
    pub order_id: u128,
    pub created_at: DateTime,
    pub liquidity: FillLiquidity,
    pub fee: u64,
    pub settled: bool,
    pub side: OrderSide,
}

/// Whether a fill was the maker or the taker of its trade.
#[derive(Clone, Copy, Debug, PartialEq, Eq, Structural)]
pub enum FillLiquidity {
    M,
    T,
}

/// The candle widths the exchange serves.
#[derive(Clone, Copy, Debug, PartialEq, Eq, Structural)]
pub enum Granularity {
    M1,
    M5,
    M15,
    H1,
    H6,
    D1,
}

impl Granularity {
    /// The width as a count of seconds.
    pub open spec fn spec_seconds(&self) -> u64 {
        match self {
            Granularity::M1 => 60,
            Granularity::M5 => 300,
            Granularity::M15 => 900,
            Granularity::H1 => 3600,
            Granularity::H6 => 21600,
            Granularity::D1 => 86400,
        }
    }

    /// The width as a count of seconds.
    pub fn seconds(&self) -> (r: u64)
        ensures
            r == self.spec_seconds(),
    {
        match self {
            Granularity::M1 => 60,
            Granularity::M5 => 300,
            Granularity::M15 => 900,
            Granularity::H1 => 3600,
            Granularity::H6 => 21600,
            Granularity::D1 => 86400,
        }
    }
}

/// How a market order states its amount.
#[derive(Clone, Copy, Debug, PartialEq, Eq, Structural)]
pub enum MarketType {
    Size { size: u64 },
    Funds { funds: u64 },
}

/// Where an order stands in its life on the exchange.
#[derive(Clone, Copy, Debug, PartialEq, Eq, Structural)]
pub enum OrderStatus {
    Open,
    Done,
    Pending,
    Active,
    Rejected,
}

impl OrderStatus {
    /// The wire text of this status.
    pub open spec fn spec_text(&self) -> Seq<char> {
        match self {
            OrderStatus::Open => "open"@,
            OrderStatus::Done => "done"@,
            OrderStatus::Pending => "pending"@,
            OrderStatus::Active => "active"@,
            OrderStatus::Rejected => "rejected"@,
        }
    }

    /// The wire text of this status.
    pub fn text(&self) -> (r: String)
        ensures
            r@ == self.spec_text(),
    {
        match self {
            OrderStatus::Open => "open".to_owned(),
            OrderStatus::Done => "done".to_owned(),
            OrderStatus::Pending => "pending".to_owned(),
            OrderStatus::Active => "active".to_owned(),
            OrderStatus::Rejected => "rejected".to_owned(),
        }
    }
}

/// Which way a stop order triggers.
#[derive(Clone, Copy, Debug, PartialEq, Eq, Structural)]
pub enum OrderStopType {
    Loss,
    Entry,
}

/// The stop attached to an order: its trigger price and direction.
#[derive(Clone, Copy, Debug, PartialEq, Eq, Structural)]
pub struct OrderStop {
    pub stop_price: u64,
    pub _type: OrderStopType,
}

/// When an order not yet filled leaves the book.
#[derive(Clone, Copy, Debug, PartialEq, Eq, Structural)]
pub enum OrderTimeInForceCancelAfter {
    Min,
    Hour,
    Day,
}

/// How long an order stays live.
#[derive(Clone, Copy, Debug, PartialEq, Eq, Structural)]
pub enum OrderTimeInForce {
    GTC,
    GTT { cancel_after: OrderTimeInForceCancelAfter },
    IOC,
    FOK,
}

/// The pricing shape of an order.
#[derive(Clone, Copy, Debug, PartialEq, Eq, Structural)]
pub enum OrderType {
    Limit { post_only: bool, price: u64, size: u64, time_in_force: OrderTimeInForce },
    Market { size: u64, funds: u64 },
}

/// A traded pair and its size limits.
#[derive(Clone, Debug, PartialEq)]
pub struct Product {
    pub id: String,
    pub base_currency: String,
    pub quote_currency: String,
    pub base_min_size: u64,
    pub base_max_size: u64,
    pub quote_increment: u64,
}

/// Why a resting order left the book.
#[derive(Clone, Copy, Debug, PartialEq, Eq, Structural)]
pub enum Reason {
    Filled,
    Canceled,
}

/// Which way a stop activation fires.
#[derive(Clone, Copy, Debug, PartialEq, Eq, Structural)]
pub enum StopType {
    Entry,
    Exit,
}

/// A day's trading range for one product.
#[derive(Clone, Copy, Debug, PartialEq, Eq, Structural)]
pub struct Stats24H {
    pub open: u64,
    pub high: u64,
    pub low: u64,
    pub volume: u64,
}

/// The server clock: its ISO-8601 text and its epoch timestamp.
#[derive(Clone, Debug, PartialEq)]
pub struct Time {
    pub iso: String,
    pub epoch: DateTime,
}

/// A product's rolling traded volume.
#[derive(Clone, Debug, PartialEq)]
pub struct TrailingVolume {
    pub product_id: String,
    pub exchange_volume: u64,
    pub volume: u64,
    pub recorded_at: DateTime,
}

/// One public trade.
#[derive(Clone, Debug, PartialEq)]
pub struct Trade {
    pub time: DateTime,
    pub trade_id: usize,
    pub price: u64,
    pub size: u64,
    pub side: OrderSide,
}

/// An order as sent to or read back from the exchange.  Ids are carried as
/// the 128-bit values of the exchange's UUIDs.
#[derive(Clone, Debug, PartialEq)]
pub struct Order {
    pub _type: OrderType,
    pub client_oid: Option<u128>,
    pub created_at: DateTime,
    pub executed_value: Option<u64>,
    pub fill_fees: Option<u64>,
    pub filled_size: Option<u64>,
    pub id: Option<u128>,
    pub post_only: bool,
    pub product_id: String,
    pub settled: bool,
    pub side: OrderSide,
    pub status: Option<OrderStatus>,
    pub stop: Option<OrderStop>,
    pub stp: Option<String>,
}

/// A fresh limit order built by [`Order::limit`], up to its creation time:
/// the given terms under good-till-cancelled, everything else still unset.
pub open spec fn spec_limit_order(
    r: Order,
    product_id: String,
    side: OrderSide,
    size: u64,
    price: u64,
    post_only: bool,
) -> bool {
    &&& r._type == OrderType::Limit {
        price,
        size,
        post_only,
        time_in_force: OrderTimeInForce::GTC,
    }
    &&& r.client_oid == None::<u128>
    &&& r.executed_value == None::<u64>
    &&& r.fill_fees == None::<u64>
    &&& r.filled_size == None::<u64>
    &&& r.id == None::<u128>
    &&& r.post_only == post_only
    &&& r.product_id == product_id
    &&& r.settled == false
    &&& r.side == side
    &&& r.status == None::<OrderStatus>
    &&& r.stop == None::<OrderStop>
    &&& r.stp == None::<String>
}

/// A fresh market order built by [`Order::market`], up to its creation time:
/// the given size with no funds bound, everything else still unset.
pub open spec fn spec_market_order(r: Order, product_id: String, side: OrderSide, size: u64) -> bool {
    &&& r._type == OrderType::Market { size, funds: 0 }
    &&& r.client_oid == None::<u128>
    &&& r.executed_value == None::<u64>
    &&& r.fill_fees == None::<u64>
    &&& r.filled_size == None::<u64>
    &&& r.id == None::<u128>
    &&& r.post_only == false
    &&& r.product_id == product_id
    &&& r.settled == false
    &&& r.side == side
    &&& r.status == None::<OrderStatus>
    &&& r.stop == None::<OrderStop>
    &&& r.stp == None::<String>
}

impl Order {
    /// A limit order on the given terms, created now.
    pub fn limit(product_id: String, side: OrderSide, size: u64, price: u64, post_only: bool) -> (r:
        Order)
        ensures
            spec_limit_order(r, product_id, side, size, price, post_only),
    {
        Order {
            _type: OrderType::Limit {
                price,
                size,
                post_only,
                time_in_force: OrderTimeInForce::GTC,
            },
            client_oid: None,
            created_at: now(),
            executed_value: None,
            fill_fees: None,
            filled_size: None,
            id: None,
            post_only,
            product_id,
            settled: false,
            side,
            status: None,
            stop: None,
            stp: None,
        }
    }

    /// A market order for the given size, created now.
    pub fn market(product_id: String, side: OrderSide, size: u64) -> (r: Order)
        ensures
            spec_market_order(r, product_id, side, size),
    {
        Order {
            _type: OrderType::Market { size, funds: 0 },
            client_oid: None,
            created_at: now(),
            executed_value: None,
            fill_fees: None,
            filled_size: None,
            id: None,
            post_only: false,
            product_id,
            settled: false,
            side,
            status: None,
            stop: None,
            stp: None,
        }
    }

    /// A market buy.
    pub fn buy_market(product_id: String, size: u64) -> (r: Order)
        ensures
            spec_market_order(r, product_id, OrderSide::Buy, size),
    {
        Self::market(product_id, OrderSide::Buy, size)
    }

    /// A market sell.
    pub fn sell_market(product_id: String, size: u64) -> (r: Order)
        ensures
            spec_market_order(r, product_id, OrderSide::Sell, size),
    {
        Self::market(product_id, OrderSide::Sell, size)
    }

    /// A limit buy.
    pub fn buy_limit(product_id: String, size: u64, price: u64, post_only: bool) -> (r: Order)
        ensures
            spec_limit_order(r, product_id, OrderSide::Buy, size, price, post_only),
    {
        Self::limit(product_id, OrderSide::Buy, size, price, post_only)
    }

    /// A limit sell.
    pub fn sell_limit(product_id: String, size: u64, price: u64, post_only: bool) -> (r: Order)
        ensures
            spec_limit_order(r, product_id, OrderSide::Sell, size, price, post_only),
    {
        Self::limit(product_id, OrderSide::Sell, size, price, post_only)
    }

    /// The same order tagged with a client-chosen id.
    pub fn client_oid(self, client_oid: u128) -> (r: Order)
        ensures
            r == (Order { client_oid: Some(client_oid), ..self }),
    {
        let client_oid = Some(client_oid);
        Order { client_oid, ..self }
    }

    /// The same order with a stop at `price`.
    pub fn stop(self, price: u64, stop_type: OrderStopType) -> (r: Order)
        ensures
            r == (Order { stop: Some(OrderStop { stop_price: price, _type: stop_type }), ..self }),
    {
        let stop = Some(OrderStop { stop_price: price, _type: stop_type });
        Order { stop, ..self }
    }

    /// The same order with a stop-loss at `price`.
    pub fn stop_loss(self, price: u64) -> (r: Order)
        ensures
            r == (Order {
                stop: Some(OrderStop { stop_price: price, _type: OrderStopType::Loss }),
                ..self
            }),
    {
        self.stop(price, OrderStopType::Loss)
    }

    /// The same order with a stop-entry at `price`.
    pub fn stop_entry(self, price: u64) -> (r: Order)
        ensures
            r == (Order {
                stop: Some(OrderStop { stop_price: price, _type: OrderStopType::Entry }),
                ..self
            }),
    {
        self.stop(price, OrderStopType::Entry)
    }

    /// The same limit order under another time-in-force policy.  Only limit
    /// orders carry one.
    pub fn time_in_force(self, time_in_force: OrderTimeInForce) -> (r: Order)
        requires
            self._type matches OrderType::Limit { .. },
        ensures
            (match self._type {
                OrderType::Limit { price, size, post_only, .. } => r == (Order {
                    _type: OrderType::Limit { price, size, post_only, time_in_force },
                    ..self
                }),
                _ => false,
            }),
    {
        match self._type {
            OrderType::Limit { price, size, post_only, .. } => {
                let _type = OrderType::Limit { price, size, post_only, time_in_force };
                Order { _type, ..self }
            },
            _ => self,
        }
    }
}

/// A typed feed message.  The order book claims the snapshot and update
/// variants addressed to its product; everything else passes along the
/// harvester chain untouched.
#[derive(Clone, Debug, PartialEq)]
pub enum Message {
    Error { message: String },
    InternalError(CBProError),
    Interval(DateTime),
    WSHeartbeat { sequence: usize, last_trade_id: usize, product_id: String, time: DateTime },
    WSL2update { product_id: String, time: DateTime, changes: Vec<Level2UpdateRecord> },
    WSSnapshot {
        product_id: String,
        bids: Vec<Level2SnapshotRecord>,
        asks: Vec<Level2SnapshotRecord>,
    },
    WSSubscribe(WSSubscribe),
    WSSubscriptions { channels: Vec<WSChannel> },
    WSTicker(WSTicker),
}

/// A level-2 message on its own, outside the shared message stream.
#[derive(Clone, Debug, PartialEq)]
pub enum WSLevel2 {
    Snapshot {
        product_id: String,
        bids: Vec<Level2SnapshotRecord>,
        asks: Vec<Level2SnapshotRecord>,
    },
    L2update { product_id: String, time: DateTime, changes: Vec<Level2UpdateRecord> },
}

} // verus!
