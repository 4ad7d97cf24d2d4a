//! The level-2 order-book replica.
//!
//! A [`SideBook`] holds one side of the book as an ordered map from price key
//! to resting size; a size of zero never stays in the map.  An [`OrderBook`]
//! owns the two sides for one product, claims the snapshot and update
//! messages addressed to that product, and drops updates whose event time
//! runs behind what it has already applied.

use std::collections::BTreeMap;

use vstd::prelude::*;

use vstd::std_specs::cmp::OrdSpec;
use vstd::std_specs::iter::IteratorSpec;

use crate::book::MsgHarvester;
use crate::structs::now;
use crate::structs::{DateTime, Level2SnapshotRecord, Level2UpdateRecord, Message};

verus! {

broadcast use vstd::std_specs::btree::group_btree_axioms, vstd::laws_cmp::group_laws_cmp;

/// One `ingest` step on one side: a zero size deletes the level at `price`
/// (deleting an absent level changes nothing), any other size inserts or
/// overwrites it.
pub open spec fn spec_ingest(m: Map<u64, u64>, price: u64, size: u64) -> Map<u64, u64> {
    if size == 0 {
        m.remove(price)
    } else {
        m.insert(price, size)
    }
}

/// No stored level has size zero.
pub open spec fn no_zero_sizes(m: Map<u64, u64>) -> bool {
    forall|p: u64| #[trigger] m.contains_key(p) ==> m[p] != 0
}

/// The side left after ingesting every snapshot record in order.
pub open spec fn spec_apply_side(m: Map<u64, u64>, recs: Seq<Level2SnapshotRecord>) -> Map<
    u64,
    u64,
>
    decreases recs.len(),
{
    if recs.len() == 0 {
        m
    } else {
        spec_apply_side(spec_ingest(m, recs[0].price, recs[0].size), recs.drop_first())
    }
}

/// One update record routed to the side its wire text names: `"buy"` to the
/// bids, `"sell"` to the asks, anything else ignored.
pub open spec fn spec_route_change(
    bids: Map<u64, u64>,
    asks: Map<u64, u64>,
    c: Level2UpdateRecord,
) -> (Map<u64, u64>, Map<u64, u64>) {
    if c.side@ == "buy"@ {
        (spec_ingest(bids, c.price, c.size), asks)
    } else if c.side@ == "sell"@ {
        (bids, spec_ingest(asks, c.price, c.size))
    } else {
        (bids, asks)
    }
}

/// Both sides left after routing every change record in order.  Each record
/// is handled on its own, so one malformed side value skips exactly that
/// record.
pub open spec fn spec_apply_changes(
    bids: Map<u64, u64>,
    asks: Map<u64, u64>,
    cs: Seq<Level2UpdateRecord>,
) -> (Map<u64, u64>, Map<u64, u64>)
    decreases cs.len(),
{
    if cs.len() == 0 {
        (bids, asks)
    } else {
        let (b2, a2) = spec_route_change(bids, asks, cs[0]);
        spec_apply_changes(b2, a2, cs.drop_first())
    }
}

/// Deleting at a price that holds no level leaves the side exactly as it was.
pub proof fn lemma_ingest_delete_absent(m: Map<u64, u64>, price: u64)
    requires
        !m.contains_key(price),
    ensures
        spec_ingest(m, price, 0) == m,
{
    assert(m.remove(price) =~= m);
}

/// Ingesting `price` twice keeps one level at `price`, holding the later
/// size; every other price is untouched.
pub proof fn lemma_ingest_upsert_overwrite(m: Map<u64, u64>, price: u64, s1: u64, s2: u64)
    requires
        s2 != 0,
    ensures
        spec_ingest(spec_ingest(m, price, s1), price, s2) == spec_ingest(m, price, s2),
        spec_ingest(spec_ingest(m, price, s1), price, s2)[price] == s2,
        forall|q: u64|
            q != price ==> #[trigger] spec_ingest(spec_ingest(m, price, s1), price, s2).contains_key(
                q,
            ) == m.contains_key(q),
        forall|q: u64|
            q != price && m.contains_key(q) ==> #[trigger] spec_ingest(
                spec_ingest(m, price, s1),
                price,
                s2,
            )[q] == m[q],
{
    assert(spec_ingest(spec_ingest(m, price, s1), price, s2) =~= spec_ingest(m, price, s2));
}

/// One ingest step never stores a zero size, so no sequence of ingest calls
/// ever does.
pub proof fn lemma_ingest_no_zero_sizes(m: Map<u64, u64>, price: u64, size: u64)
    requires
        no_zero_sizes(m),
    ensures
        no_zero_sizes(spec_ingest(m, price, size)),
{
}

/// One side of the book: an ordered map from price key to resting size, with
/// no zero-size levels.
#[derive(Debug)]
pub struct SideBook(BTreeMap<u64, u64>);

impl View for SideBook {
    type V = Map<u64, u64>;

    closed spec fn view(&self) -> Map<u64, u64> {
        self.0@
    }
}

impl SideBook {
    /// An empty side.
    pub fn new() -> (r: SideBook)
        ensures
            r@ == Map::<u64, u64>::empty(),
    {
        SideBook(BTreeMap::new())
    }

    /// Apply one level change: remove the level at `price` when `size` is
    /// zero, insert or overwrite it otherwise.
    pub fn ingest(&mut self, price: u64, size: u64)
        ensures
            final(self)@ == spec_ingest(old(self)@, price, size),
            no_zero_sizes(old(self)@) ==> no_zero_sizes(final(self)@),
    {
        if size == 0 {
            self.0.remove(&price);
        } else {
            self.0.insert(price, size);
        }
    }

    /// The size resting at `price`, if a level is there.
    pub fn get(&self, price: u64) -> (r: Option<u64>)
        ensures
            r == (if self@.contains_key(price) {
                Some(self@[price])
            } else {
                None::<u64>
            }),
    {
        match self.0.get(&price) {
            Some(size) => Some(*size),
            None => None,
        }
    }

    /// How many levels this side holds.
    pub fn len(&self) -> (r: usize)
        ensures
            r == self@.len(),
    {
        self.0.len()
    }

    /// Every level of this side in ascending price order: exactly the stored
    /// entries, each price once.  Depth queries (best bid, best ask, top N)
    /// read off either end.
    pub fn levels(&self) -> (r: Vec<(u64, u64)>)
        ensures
            r@.len() == self@.len(),
            forall|i: int|
                0 <= i < r@.len() ==> self@.contains_key(#[trigger] r@[i].0) && self@[r@[i].0]
                    == r@[i].1,
            forall|i: int, k: int| 0 <= i < k < r@.len() ==> r@[i].0 < r@[k].0,
            forall|p: u64| #[trigger]
                self@.contains_key(p) ==> exists|i: int| 0 <= i < r@.len() && r@[i].0 == p,
    {
        let mut out: Vec<(u64, u64)> = Vec::new();
        for kv in it: self.0.iter()
            invariant
                out@.len() == it.index(),
                it.seq().len() == self@.len(),
                forall|i: int|
                    0 <= i < it.seq().len() ==> self@.contains_key(*(#[trigger] it.seq()[i]).0)
                        && self@[*it.seq()[i].0] == *it.seq()[i].1,
                vstd::std_specs::btree::increasing_seq(
                    it.seq().map_values(|kv2: (&u64, &u64)| *kv2.0),
                ),
                forall|i: int|
                    0 <= i < out@.len() ==> #[trigger] out@[i] == (*it.seq()[i].0, *it.seq()[i].1),
                forall|i: int, k: int| 0 <= i < k < out@.len() ==> out@[i].0 < out@[k].0,
                forall|p: u64| #[trigger]
                    self@.contains_key(p) ==> (exists|i: int|
                        0 <= i < out@.len() && out@[i].0 == p) || (exists|i: int|
                        out@.len() <= i < it.seq().len() && *(#[trigger] it.seq()[i]).0 == p),
        {
            let ghost n = out@.len() as int;
            proof {
                assert(kv == it.seq()[n]);
                let keys = it.seq().map_values(|kv2: (&u64, &u64)| *kv2.0);
                assert forall|i: int| 0 <= i < n implies *it.seq()[i].0 < *it.seq()[n].0 by {
                    assert(keys[i].cmp_spec(&keys[i]) is Equal);
                    assert(keys[i].cmp_spec(&keys[n]) is Less);
                }
            }
            let ghost old_out = out@;
            out.push((*kv.0, *kv.1));
            proof {
                assert forall|p: u64| #[trigger] self@.contains_key(p) implies (exists|i: int|
                    0 <= i < out@.len() && out@[i].0 == p) || (exists|i: int|
                    out@.len() <= i < it.seq().len() && *(#[trigger] it.seq()[i]).0 == p) by {
                    if exists|i: int| 0 <= i < old_out.len() && old_out[i].0 == p {
                        let i = choose|i: int| 0 <= i < old_out.len() && old_out[i].0 == p;
                        assert(out@[i] == old_out[i]);
                        assert(out@[i].0 == p);
                    } else {
                        let i = choose|i: int|
                            old_out.len() <= i < it.seq().len() && *(#[trigger] it.seq()[i]).0
                                == p;
                        if i == n {
                            assert(out@[n] == (*it.seq()[n].0, *it.seq()[n].1));
                            assert(out@[n].0 == p);
                        } else {
                            assert(n + 1 <= i < it.seq().len() && *it.seq()[i].0 == p);
                        }
                    }
                }
            }
        }
        out
    }
}

/// The replicated book for one product: both sides plus the event time of the
/// last applied update, used to drop stale deliveries.
#[derive(Debug)]
pub struct OrderBook {
    pub product_id: String,
    pub bid_book: SideBook,
    pub ask_book: SideBook,
    pub latest_time: DateTime,
}

impl OrderBook {
    /// Both sides hold no zero-size level.
    pub open spec fn inv(&self) -> bool {
        no_zero_sizes(self.bid_book@) && no_zero_sizes(self.ask_book@)
    }

    /// An empty book for `product_id`.  `latest_time` starts at the current
    /// wall-clock time, a sentinel standing in until the first update.
    pub fn new(product_id: String) -> (r: OrderBook)
        ensures
            r.product_id == product_id,
            r.bid_book@ == Map::<u64, u64>::empty(),
            r.ask_book@ == Map::<u64, u64>::empty(),
            r.inv(),
    {
        OrderBook {
            product_id,
            bid_book: SideBook::new(),
            ask_book: SideBook::new(),
            latest_time: now(),
        }
    }

    /// Whether a message naming `pid` belongs to this book.
    pub fn match_product_id(&self, pid: &String) -> (r: bool)
        ensures
            r == (self.product_id@ == pid@),
    {
        self.product_id == *pid
    }

    /// Apply a full-depth snapshot.  A snapshot for another product is handed
    /// back untouched; one for this product upserts every listed level into
    /// the matching side and is consumed.  A snapshot carries no event
    /// timestamp, so it leaves `latest_time` alone; only timed updates
    /// advance it.
    pub fn ingest_snapshot(
        &mut self,
        product_id: String,
        bids: Vec<Level2SnapshotRecord>,
        asks: Vec<Level2SnapshotRecord>,
    ) -> (r: Option<Message>)
        ensures
            old(self).product_id@ != product_id@ ==> ({
                &&& r == Some(Message::WSSnapshot { product_id, bids, asks })
                &&& *final(self) == *old(self)
            }),
            old(self).product_id@ == product_id@ ==> ({
                &&& r == None::<Message>
                &&& final(self).product_id == old(self).product_id
                &&& final(self).latest_time == old(self).latest_time
                &&& final(self).bid_book@ == spec_apply_side(old(self).bid_book@, bids@)
                &&& final(self).ask_book@ == spec_apply_side(old(self).ask_book@, asks@)
            }),
            old(self).inv() ==> final(self).inv(),
    {
        if !self.match_product_id(&product_id) {
            Some(Message::WSSnapshot { product_id, bids, asks })
        } else {
            let ghost b0 = self.bid_book@;
            let ghost a0 = self.ask_book@;
            let ghost pid0 = self.product_id;
            let ghost lt0 = self.latest_time;
            let mut i: usize = 0;
            while i < bids.len()
                invariant
                    i <= bids@.len(),
                    self.bid_book@ == spec_apply_side(b0, bids@.take(i as int)),
                    no_zero_sizes(b0) ==> no_zero_sizes(self.bid_book@),
                    self.ask_book@ == a0,
                    self.product_id == pid0,
                    self.latest_time == lt0,
                decreases bids@.len() - i,
            {
                let rec = bids[i];
                self.bid_book.ingest(rec.price, rec.size);
                proof {
                    lemma_apply_side_push(b0, bids@.take(i as int), bids@[i as int]);
                    assert(bids@.take(i as int).push(bids@[i as int]) =~= bids@.take(i as int + 1));
                }
                i = i + 1;
            }
            proof {
                assert(bids@.take(bids@.len() as int) =~= bids@);
            }
            let mut i: usize = 0;
            while i < asks.len()
                invariant
                    i <= asks@.len(),
                    self.ask_book@ == spec_apply_side(a0, asks@.take(i as int)),
                    no_zero_sizes(a0) ==> no_zero_sizes(self.ask_book@),
                    self.bid_book@ == spec_apply_side(b0, bids@),
                    no_zero_sizes(b0) ==> no_zero_sizes(self.bid_book@),
                    self.product_id == pid0,
                    self.latest_time == lt0,
                decreases asks@.len() - i,
            {
                let rec = asks[i];
                self.ask_book.ingest(rec.price, rec.size);
                proof {
                    lemma_apply_side_push(a0, asks@.take(i as int), asks@[i as int]);
                    assert(asks@.take(i as int).push(asks@[i as int]) =~= asks@.take(i as int + 1));
                }
                i = i + 1;
            }
            proof {
                assert(asks@.take(asks@.len() as int) =~= asks@);
            }
            None
        }
    }

    /// Apply an incremental update.  An update for another product is handed
    /// back untouched.  One for this product is consumed either way: if its
    /// event time runs behind `latest_time` the whole batch is dropped,
    /// otherwise every change record is routed to the side its wire text
    /// names (records with any other side text are skipped one by one) and
    /// `latest_time` advances to the update's event time.
    pub fn ingest_updates(
        &mut self,
        product_id: String,
        time: DateTime,
        changes: Vec<Level2UpdateRecord>,
    ) -> (r: Option<Message>)
        ensures
            old(self).product_id@ != product_id@ ==> ({
                &&& r == Some(Message::WSL2update { product_id, time, changes })
                &&& *final(self) == *old(self)
            }),
            old(self).product_id@ == product_id@ && time < old(self).latest_time ==> ({
                &&& r == None::<Message>
                &&& *final(self) == *old(self)
            }),
            old(self).product_id@ == product_id@ && time >= old(self).latest_time ==> ({
                &&& r == None::<Message>
                &&& final(self).product_id == old(self).product_id
                &&& final(self).latest_time == time
                &&& final(self).bid_book@ == spec_apply_changes(
                    old(self).bid_book@,
                    old(self).ask_book@,
                    changes@,
                ).0
                &&& final(self).ask_book@ == spec_apply_changes(
                    old(self).bid_book@,
                    old(self).ask_book@,
                    changes@,
                ).1
            }),
            old(self).inv() ==> final(self).inv(),
    {
        if !self.match_product_id(&product_id) {
            Some(Message::WSL2update { product_id, time, changes })
        } else if self.latest_time > time {
            None
        } else {
            let ghost b0 = self.bid_book@;
            let ghost a0 = self.ask_book@;
            let ghost pid0 = self.product_id;
            let mut i: usize = 0;
            while i < changes.len()
                invariant
                    i <= changes@.len(),
                    self.bid_book@ == spec_apply_changes(b0, a0, changes@.take(i as int)).0,
                    self.ask_book@ == spec_apply_changes(b0, a0, changes@.take(i as int)).1,
                    no_zero_sizes(b0) ==> no_zero_sizes(self.bid_book@),
                    no_zero_sizes(a0) ==> no_zero_sizes(self.ask_book@),
                    self.product_id == pid0,
                decreases changes@.len() - i,
            {
                let c = &changes[i];
                if c.side == "buy".to_owned() {
                    self.bid_book.ingest(c.price, c.size);
                } else if c.side == "sell".to_owned() {
                    self.ask_book.ingest(c.price, c.size);
                }
                proof {
                    lemma_apply_changes_push(b0, a0, changes@.take(i as int), changes@[i as int]);
                    assert(changes@.take(i as int).push(changes@[i as int]) =~= changes@.take(
                        i as int + 1,
                    ));
                }
                i = i + 1;
            }
            proof {
                assert(changes@.take(changes@.len() as int) =~= changes@);
            }
            self.latest_time = time;
            None
        }
    }
}

/// No message ever moves a book's `latest_time` backwards: updates advance
/// it or are dropped as stale, and everything else leaves it alone.
pub proof fn lemma_latest_time_monotonic(pre: OrderBook, m: Message, post: OrderBook)
    requires
        pre.spec_harvest_post(m, post),
    ensures
        post.latest_time >= pre.latest_time,
{
}

/// A whole snapshot side keeps the no-zero-sizes invariant.
proof fn lemma_apply_side_no_zeros(m: Map<u64, u64>, recs: Seq<Level2SnapshotRecord>)
    requires
        no_zero_sizes(m),
    ensures
        no_zero_sizes(spec_apply_side(m, recs)),
    decreases recs.len(),
{
    if recs.len() > 0 {
        lemma_apply_side_no_zeros(spec_ingest(m, recs[0].price, recs[0].size), recs.drop_first());
    }
}

/// A whole update batch keeps the no-zero-sizes invariant on both sides.
proof fn lemma_apply_changes_no_zeros(
    bids: Map<u64, u64>,
    asks: Map<u64, u64>,
    cs: Seq<Level2UpdateRecord>,
)
    requires
        no_zero_sizes(bids),
        no_zero_sizes(asks),
    ensures
        no_zero_sizes(spec_apply_changes(bids, asks, cs).0),
        no_zero_sizes(spec_apply_changes(bids, asks, cs).1),
    decreases cs.len(),
{
    if cs.len() > 0 {
        let (b2, a2) = spec_route_change(bids, asks, cs[0]);
        lemma_apply_changes_no_zeros(b2, a2, cs.drop_first());
    }
}

/// No message ever puts a zero-size level into a well-formed book: whatever
/// one harvested message does to the book, both sides stay free of them.
pub proof fn lemma_harvest_preserves_inv(pre: OrderBook, m: Message, post: OrderBook)
    requires
        pre.spec_harvest_post(m, post),
        pre.inv(),
    ensures
        post.inv(),
{
    match m {
        Message::WSSnapshot { product_id, bids, asks } => {
            if pre.product_id@ == product_id@ {
                lemma_apply_side_no_zeros(pre.bid_book@, bids@);
                lemma_apply_side_no_zeros(pre.ask_book@, asks@);
            }
        },
        Message::WSL2update { product_id, time, changes } => {
            if pre.product_id@ == product_id@ && time >= pre.latest_time {
                lemma_apply_changes_no_zeros(pre.bid_book@, pre.ask_book@, changes@);
            }
        },
        _ => {},
    }
}

/// Ingesting one more snapshot record folds onto the end.
proof fn lemma_apply_side_push(
    m: Map<u64, u64>,
    s: Seq<Level2SnapshotRecord>,
    rec: Level2SnapshotRecord,
)
    ensures
        spec_apply_side(m, s.push(rec)) == spec_ingest(spec_apply_side(m, s), rec.price, rec.size),
    decreases s.len(),
{
    reveal_with_fuel(spec_apply_side, 3);
    if s.len() == 0 {
        assert(s.push(rec)[0] == rec);
        assert(s.push(rec).drop_first() =~= Seq::<Level2SnapshotRecord>::empty());
    } else {
        assert(s.push(rec)[0] == s[0]);
        assert(s.push(rec).drop_first() =~= s.drop_first().push(rec));
        lemma_apply_side_push(spec_ingest(m, s[0].price, s[0].size), s.drop_first(), rec);
    }
}

/// Routing one more change record folds onto the end.
proof fn lemma_apply_changes_push(
    bids: Map<u64, u64>,
    asks: Map<u64, u64>,
    s: Seq<Level2UpdateRecord>,
    c: Level2UpdateRecord,
)
    ensures
        spec_apply_changes(bids, asks, s.push(c)) == spec_route_change(
            spec_apply_changes(bids, asks, s).0,
            spec_apply_changes(bids, asks, s).1,
            c,
        ),
    decreases s.len(),
{
    reveal_with_fuel(spec_apply_changes, 3);
    if s.len() == 0 {
        assert(s.push(c)[0] == c);
        assert(s.push(c).drop_first() =~= Seq::<Level2UpdateRecord>::empty());
    } else {
        assert(s.push(c)[0] == s[0]);
        assert(s.push(c).drop_first() =~= s.drop_first().push(c));
        let (b2, a2) = spec_route_change(bids, asks, s[0]);
        lemma_apply_changes_push(b2, a2, s.drop_first(), c);
    }
}

impl MsgHarvester for OrderBook {
    /// The book consumes the snapshot and update messages naming its own
    /// product and passes every other message on unchanged.
    open spec fn spec_harvest_result(&self, m: Message) -> Option<Message> {
        match m {
            Message::WSSnapshot { product_id, bids, asks } => {
                if self.product_id@ == product_id@ {
                    None
                } else {
                    Some(Message::WSSnapshot { product_id, bids, asks })
                }
            },
            Message::WSL2update { product_id, time, changes } => {
                if self.product_id@ == product_id@ {
                    None
                } else {
                    Some(Message::WSL2update { product_id, time, changes })
                }
            },
            _ => Some(m),
        }
    }

    /// Snapshots upsert their levels, updates are applied unless stale, and
    /// everything else leaves the book untouched.
    open spec fn spec_harvest_post(&self, m: Message, post: Self) -> bool {
        match m {
            Message::WSSnapshot { product_id, bids, asks } => {
                if self.product_id@ == product_id@ {
                    &&& post.product_id == self.product_id
                    &&& post.latest_time == self.latest_time
                    &&& post.bid_book@ == spec_apply_side(self.bid_book@, bids@)
                    &&& post.ask_book@ == spec_apply_side(self.ask_book@, asks@)
                } else {
                    post == *self
                }
            },
            Message::WSL2update { product_id, time, changes } => {
                if self.product_id@ == product_id@ {
                    if time < self.latest_time {
                        post == *self
                    } else {
                        &&& post.product_id == self.product_id
                        &&& post.latest_time == time
                        &&& post.bid_book@ == spec_apply_changes(
                            self.bid_book@,
                            self.ask_book@,
                            changes@,
                        ).0
                        &&& post.ask_book@ == spec_apply_changes(
                            self.bid_book@,
                            self.ask_book@,
                            changes@,
                        ).1
                    }
                } else {
                    post == *self
                }
            },
            _ => post == *self,
        }
    }

    /// Claim the level-2 messages addressed to this book's product.
    fn harvest(&mut self, msg: Message) -> (r: Option<Message>) {
        match msg {
            Message::WSSnapshot { product_id, bids, asks } => {
                self.ingest_snapshot(product_id, bids, asks)
            },
            Message::WSL2update { product_id, time, changes } => {
                self.ingest_updates(product_id, time, changes)
            },
            msg => Some(msg),
        }
    }
}

} // verus!
