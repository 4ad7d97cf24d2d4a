use coinbase_pro_one_rs::book::ticker::Ticker;
use coinbase_pro_one_rs::book::MsgHarvester;
use coinbase_pro_one_rs::structs::{
    AccountHistoryDetails, AccountHistoryType, BookLevel, BookRecordL1, BookRecordL2, BookRecordL3,
    Granularity, Message, Order, OrderSide, OrderStatus, OrderTimeInForce, OrderType, WSTicker,
};

/// The order-preserving price/size key encoding used by the tests: the
/// IEEE-754 bit pattern, with every form of zero mapped to key 0.
fn key(x: f64) -> u64 {
    if x == 0.0 {
        0
    } else {
        x.to_bits()
    }
}

#[test]
fn test_order_builder() {
    let o = Order::buy_limit("BTC-USD".to_string(), key(10.0), key(100.0), true);
    assert!(o.client_oid.is_none());

    match &o._type {
        OrderType::Limit { time_in_force: OrderTimeInForce::GTC, .. } => assert!(true),
        _ => assert!(false),
    }

    let o = Order::buy_limit("BTC-USD".to_string(), key(10.0), key(100.0), true)
        .client_oid(0)
        .stop_loss(key(99.0))
        .time_in_force(OrderTimeInForce::GTC);
    assert!(o.client_oid.is_some());
    assert!(o.stop.is_some());

    match &o._type {
        OrderType::Limit { time_in_force: OrderTimeInForce::GTC, .. } => assert!(true),
        _ => assert!(false),
    }
}

#[derive(Debug)]
enum Coin {
    AAA,
    BBB,
}

struct Pair {
    a: Coin,
    b: Coin,
}

impl From<Pair> for Order {
    fn from(pair: Pair) -> Self {
        Order::buy_market(format!("{:?}-{:?}", pair.a, pair.b), key(10.0))
    }
}

#[test]
fn test_order_from() {
    let p = Pair { a: Coin::AAA, b: Coin::BBB };
    let order_owned: Order = p.into();
    assert_eq!(order_owned.product_id, "AAA-BBB");
    let order_str: Order = Order::buy_market("AAA-BBB".to_string(), key(10.0));
    assert_eq!(order_str.product_id, "AAA-BBB");
}

#[test]
fn order_sides_and_market_shape() {
    let o = Order::sell_market("BTC-USD".to_string(), key(2.0));
    assert_eq!(o.side, OrderSide::Sell);
    assert_eq!(o._type, OrderType::Market { size: key(2.0), funds: 0 });
    assert!(!o.post_only);
    assert!(!o.settled);

    let o = Order::sell_limit("BTC-USD".to_string(), key(2.0), key(50.0), false);
    assert_eq!(o.side, OrderSide::Sell);
    match o._type {
        OrderType::Limit { price, size, post_only, .. } => {
            assert_eq!(price, key(50.0));
            assert_eq!(size, key(2.0));
            assert!(!post_only);
        }
        _ => panic!("expected a limit order"),
    }
}

#[test]
fn book_levels() {
    assert_eq!(BookRecordL1::level(), 1);
    assert_eq!(BookRecordL2::level(), 2);
    assert_eq!(BookRecordL3::level(), 3);
}

#[test]
fn granularity_seconds() {
    assert_eq!(Granularity::M1.seconds(), 60);
    assert_eq!(Granularity::M5.seconds(), 300);
    assert_eq!(Granularity::M15.seconds(), 900);
    assert_eq!(Granularity::H1.seconds(), 3600);
    assert_eq!(Granularity::H6.seconds(), 21600);
    assert_eq!(Granularity::D1.seconds(), 86400);
}

#[test]
fn order_status_text() {
    assert_eq!(OrderStatus::Open.text(), "open");
    assert_eq!(OrderStatus::Done.text(), "done");
    assert_eq!(OrderStatus::Pending.text(), "pending");
    assert_eq!(OrderStatus::Active.text(), "active");
    assert_eq!(OrderStatus::Rejected.text(), "rejected");
}

#[test]
fn account_history_type_of_details() {
    assert_eq!(AccountHistoryType::default(), AccountHistoryType::NotSet);
    let fee = AccountHistoryDetails::Fee {
        order_id: 7,
        product_id: "BTC-USD".to_string(),
        trade_id: 1,
    };
    assert_eq!(AccountHistoryType::from(&fee), AccountHistoryType::Fee);
    let matched = AccountHistoryDetails::Match {
        order_id: 8,
        product_id: "BTC-USD".to_string(),
        trade_id: 2,
    };
    assert_eq!(AccountHistoryType::from(&matched), AccountHistoryType::Match);
}

#[test]
fn ticker_getters() {
    let full = WSTicker::Full {
        best_ask: key(11920.0),
        best_bid: key(11919.99),
        last_size: key(0.00142629),
        price: key(11920.0),
        product_id: "BTC-USD".to_string(),
        sequence: 15773761736,
        side: OrderSide::Buy,
        time: 1597665499609,
        trade_id: 100359154,
    };
    assert_eq!(full.price(), key(11920.0));
    assert_eq!(full.sequence(), 15773761736);
    assert_eq!(full.time(), Some(1597665499609));
    assert_eq!(full.bid(), Some(key(11919.99)));
    assert_eq!(full.ask(), Some(key(11920.0)));

    let empty = WSTicker::Empty {
        sequence: 5,
        product_id: "BTC-USD".to_string(),
        price: key(10.0),
    };
    assert_eq!(empty.price(), key(10.0));
    assert_eq!(empty.sequence(), 5);
    assert_eq!(empty.time(), None);
    assert_eq!(empty.bid(), None);
    assert_eq!(empty.ask(), None);
}

#[test]
fn ticker_harvests_full_ticker() {
    let mut t = Ticker::new("BTC-USD".to_string());
    assert_eq!(t.price, 0);
    assert_eq!(t.sequence, 0);

    let r = t.harvest(Message::WSTicker(WSTicker::Full {
        best_ask: key(11920.0),
        best_bid: key(11919.99),
        last_size: key(0.5),
        price: key(11920.0),
        product_id: "BTC-USD".to_string(),
        sequence: 42,
        side: OrderSide::Sell,
        time: 1000,
        trade_id: 9,
    }));
    assert!(r.is_none());
    assert_eq!(t.price, key(11920.0));
    assert_eq!(t.best_bid, key(11919.99));
    assert_eq!(t.best_ask, key(11920.0));
    assert_eq!(t.sequence, 42);
    assert_eq!(t.side, OrderSide::Sell);
    assert_eq!(t.time, 1000);
    assert_eq!(t.trade_id, 9);

    let r = t.harvest(Message::WSTicker(WSTicker::Empty {
        sequence: 43,
        product_id: "BTC-USD".to_string(),
        price: key(11921.0),
    }));
    assert!(r.is_none());
    assert_eq!(t.sequence, 43);
    assert_eq!(t.price, key(11921.0));
    // The empty form keeps the other cached values.
    assert_eq!(t.best_bid, key(11919.99));

    let hb = Message::WSHeartbeat {
        sequence: 1,
        last_trade_id: 2,
        product_id: "BTC-USD".to_string(),
        time: 3,
    };
    let r = t.harvest(hb.clone());
    assert_eq!(r, Some(hb));
}
