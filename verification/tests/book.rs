use coinbase_pro_one_rs::book::l2::{OrderBook, SideBook};
use coinbase_pro_one_rs::book::{harvest, MsgHarvester};
use coinbase_pro_one_rs::errors::CBProError;
use coinbase_pro_one_rs::structs::{Level2SnapshotRecord, Level2UpdateRecord, Message};

/// The order-preserving price/size key encoding used by the tests: the
/// IEEE-754 bit pattern, with every form of zero mapped to key 0.
fn key(x: f64) -> u64 {
    if x == 0.0 {
        0
    } else {
        x.to_bits()
    }
}

fn snap(price: f64, size: f64) -> Level2SnapshotRecord {
    Level2SnapshotRecord { price: key(price), size: key(size) }
}

fn change(side: &str, price: f64, size: f64) -> Level2UpdateRecord {
    Level2UpdateRecord { side: side.to_string(), price: key(price), size: key(size) }
}

#[test]
fn idempotent_delete() {
    let mut sb = SideBook::new();
    sb.ingest(key(10.0), 0);
    assert_eq!(sb.len(), 0);
    assert_eq!(sb.get(key(10.0)), None);

    sb.ingest(key(10.0), key(1.5));
    sb.ingest(key(5.5), 0);
    assert_eq!(sb.len(), 1);
    assert_eq!(sb.get(key(10.0)), Some(key(1.5)));
    assert_eq!(sb.get(key(5.5)), None);
}

#[test]
fn upsert_overwrite() {
    let mut sb = SideBook::new();
    sb.ingest(key(10.0), key(1.0));
    sb.ingest(key(10.0), key(2.5));
    assert_eq!(sb.len(), 1);
    assert_eq!(sb.get(key(10.0)), Some(key(2.5)));
}

#[test]
fn no_zero_entries() {
    let mut sb = SideBook::new();
    sb.ingest(key(10.0), key(1.0));
    sb.ingest(key(11.0), key(2.0));
    sb.ingest(key(10.0), 0);
    sb.ingest(key(12.0), key(3.0));
    sb.ingest(key(12.0), 0);
    sb.ingest(key(12.0), key(4.0));
    for (_, size) in sb.levels() {
        assert_ne!(size, 0);
    }
    assert_eq!(sb.len(), 2);
}

#[test]
fn levels_sorted_ascending() {
    let mut sb = SideBook::new();
    sb.ingest(key(102.5), key(1.0));
    sb.ingest(key(100.0), key(2.0));
    sb.ingest(key(101.25), key(3.0));
    let levels = sb.levels();
    assert_eq!(
        levels,
        vec![
            (key(100.0), key(2.0)),
            (key(101.25), key(3.0)),
            (key(102.5), key(1.0)),
        ]
    );
}

#[test]
fn routing_mismatch_returns_message_unchanged() {
    let mut book = OrderBook::new("BTC-USD".to_string());
    let bids = vec![snap(100.0, 1.0)];
    let asks = vec![snap(101.0, 2.0)];
    let r = book.ingest_snapshot("ETH-USD".to_string(), bids.clone(), asks.clone());
    match r {
        Some(Message::WSSnapshot { product_id, bids: b, asks: a }) => {
            assert_eq!(product_id, "ETH-USD");
            assert_eq!(b, bids);
            assert_eq!(a, asks);
        }
        other => panic!("expected the snapshot back, got {:?}", other),
    }
    assert_eq!(book.bid_book.len(), 0);
    assert_eq!(book.ask_book.len(), 0);
}

#[test]
fn routing_mismatch_update() {
    let mut book = OrderBook::new("BTC-USD".to_string());
    let t = book.latest_time + 10;
    let r = book.ingest_updates("ETH-USD".to_string(), t, vec![change("buy", 100.0, 1.0)]);
    match r {
        Some(Message::WSL2update { product_id, time, changes }) => {
            assert_eq!(product_id, "ETH-USD");
            assert_eq!(time, t);
            assert_eq!(changes, vec![change("buy", 100.0, 1.0)]);
        }
        other => panic!("expected the update back, got {:?}", other),
    }
    assert_eq!(book.bid_book.len(), 0);
}

#[test]
fn staleness_rejection() {
    let mut book = OrderBook::new("BTC-USD".to_string());
    let t = book.latest_time;
    let r = book.ingest_snapshot(
        "BTC-USD".to_string(),
        vec![snap(100.0, 1.0)],
        vec![snap(101.0, 2.0)],
    );
    assert!(r.is_none());
    let bids_before = book.bid_book.levels();
    let asks_before = book.ask_book.levels();

    let r = book.ingest_updates("BTC-USD".to_string(), t - 1000, vec![change("buy", 100.0, 0.0)]);
    assert!(r.is_none());
    assert_eq!(book.bid_book.levels(), bids_before);
    assert_eq!(book.ask_book.levels(), asks_before);
    assert_eq!(book.latest_time, t);
}

#[test]
fn equal_timestamp_applies() {
    let mut book = OrderBook::new("BTC-USD".to_string());
    let t = book.latest_time;
    let r = book.ingest_updates("BTC-USD".to_string(), t, vec![change("buy", 100.0, 1.0)]);
    assert!(r.is_none());
    assert_eq!(book.bid_book.get(key(100.0)), Some(key(1.0)));
    assert_eq!(book.latest_time, t);
}

#[test]
fn batch_partial_apply() {
    let mut book = OrderBook::new("BTC-USD".to_string());
    let t = book.latest_time + 5;
    let r = book.ingest_updates(
        "BTC-USD".to_string(),
        t,
        vec![
            change("buy", 100.0, 1.0),
            change("hold", 99.0, 7.0),
            change("sell", 101.0, 2.0),
        ],
    );
    assert!(r.is_none());
    assert_eq!(book.bid_book.levels(), vec![(key(100.0), key(1.0))]);
    assert_eq!(book.ask_book.levels(), vec![(key(101.0), key(2.0))]);
    assert_eq!(book.bid_book.get(key(99.0)), None);
    assert_eq!(book.ask_book.get(key(99.0)), None);
    assert_eq!(book.latest_time, t);
}

/// A chain member that counts how often it is offered a message and either
/// consumes everything or declines everything.
enum Stub {
    Consumes { calls: usize },
    Declines { calls: usize },
}

impl Stub {
    fn calls(&self) -> usize {
        match self {
            Stub::Consumes { calls } => *calls,
            Stub::Declines { calls } => *calls,
        }
    }
}

impl MsgHarvester for Stub {
    fn harvest(&mut self, msg: Message) -> Option<Message> {
        match self {
            Stub::Consumes { calls } => {
                *calls += 1;
                None
            }
            Stub::Declines { calls } => {
                *calls += 1;
                Some(msg)
            }
        }
    }
}

#[test]
fn harvester_chain_short_circuit() {
    let mut chain = vec![
        Stub::Declines { calls: 0 },
        Stub::Consumes { calls: 0 },
        Stub::Declines { calls: 0 },
    ];
    let r = harvest(Message::Interval(42), &mut chain);
    assert!(r.is_none());
    assert_eq!(chain[0].calls(), 1);
    assert_eq!(chain[1].calls(), 1);
    assert_eq!(chain[2].calls(), 0);
}

#[test]
fn harvester_chain_all_decline() {
    let mut chain = vec![Stub::Declines { calls: 0 }, Stub::Declines { calls: 0 }];
    let r = harvest(Message::Interval(7), &mut chain);
    assert_eq!(r, Some(Message::Interval(7)));
    assert_eq!(chain[0].calls(), 1);
    assert_eq!(chain[1].calls(), 1);
}

#[test]
fn harvester_chain_of_books_routes_by_product() {
    let mut chain = vec![
        OrderBook::new("ETH-USD".to_string()),
        OrderBook::new("BTC-USD".to_string()),
        OrderBook::new("BTC-USD".to_string()),
    ];
    let msg = Message::WSSnapshot {
        product_id: "BTC-USD".to_string(),
        bids: vec![snap(100.0, 1.0)],
        asks: vec![],
    };
    let r = harvest(msg, &mut chain);
    assert!(r.is_none());
    assert_eq!(chain[0].bid_book.len(), 0);
    assert_eq!(chain[1].bid_book.len(), 1);
    // The second book consumed the snapshot, so the third never saw it.
    assert_eq!(chain[2].bid_book.len(), 0);
}

#[test]
fn error_messages_pass_through() {
    let mut book = OrderBook::new("BTC-USD".to_string());
    let msg = Message::InternalError(CBProError::Serde("bad frame".to_string()));
    assert_eq!(book.harvest(msg.clone()), Some(msg));
    let msg = Message::Error { message: "down for maintenance".to_string() };
    assert_eq!(book.harvest(msg.clone()), Some(msg));
    assert_eq!(book.bid_book.len(), 0);
    assert_eq!(book.ask_book.len(), 0);
}

#[test]
fn end_to_end_scenario() {
    let mut book = OrderBook::new("BTC-USD".to_string());
    let r = book.ingest_snapshot(
        "BTC-USD".to_string(),
        vec![snap(100.0, 1.0)],
        vec![snap(101.0, 2.0)],
    );
    assert!(r.is_none());
    assert_eq!(book.bid_book.levels(), vec![(key(100.0), key(1.0))]);
    assert_eq!(book.ask_book.levels(), vec![(key(101.0), key(2.0))]);

    let t1 = book.latest_time + 1;
    let r = book.ingest_updates("BTC-USD".to_string(), t1, vec![change("buy", 100.0, 0.0)]);
    assert!(r.is_none());
    assert_eq!(book.bid_book.len(), 0);
    assert_eq!(book.latest_time, t1);

    let t2 = t1 + 1;
    let r = book.ingest_updates("BTC-USD".to_string(), t2, vec![change("sell", 102.0, 3.0)]);
    assert!(r.is_none());
    assert_eq!(
        book.ask_book.levels(),
        vec![(key(101.0), key(2.0)), (key(102.0), key(3.0))]
    );
    assert_eq!(book.latest_time, t2);
}

#[test]
fn snapshot_keeps_latest_time() {
    let mut book = OrderBook::new("BTC-USD".to_string());
    let t0 = book.latest_time;
    let r = book.ingest_snapshot("BTC-USD".to_string(), vec![snap(100.0, 1.0)], vec![]);
    assert!(r.is_none());
    assert_eq!(book.latest_time, t0);
}

#[test]
fn harvest_on_book_passes_other_messages() {
    let mut book = OrderBook::new("BTC-USD".to_string());
    let msg = Message::WSHeartbeat {
        sequence: 1,
        last_trade_id: 2,
        product_id: "BTC-USD".to_string(),
        time: 3,
    };
    let r = book.harvest(msg.clone());
    assert_eq!(r, Some(msg));
    assert_eq!(book.bid_book.len(), 0);
}
