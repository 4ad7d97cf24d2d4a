//! Sharing one message stream among several stateful consumers.
//!
//! A harvester is offered an owned [`Message`] and either consumes it
//! (returning `None`) or passes it on, possibly transformed (returning
//! `Some`).  [`harvest`] threads one message through an ordered chain of
//! harvesters, stopping at the first one that consumes it; a message nobody
//! claims comes back to the caller.

use vstd::prelude::*;

use crate::structs::Message;

pub use crate::structs::{Book, BookLevel, BookRecordL1, BookRecordL2, BookRecordL3};

pub mod l2;
pub mod ticker;

verus! {

/// Book-level consistency failures a caller may want to report.
#[derive(Clone, Copy, Debug, PartialEq, Eq, Structural)]
pub enum Error {
    BidLessAsk,
    MatchUuid,
    Range,
    TestFail,
}

/// A stateful consumer that can claim messages from a shared stream.
///
/// The two spec members pin down each implementer's behaviour: offered `m` in
/// state `self`, it passes on exactly `spec_harvest_result(m)`, and its next
/// state satisfies `spec_harvest_post(m, _)`.
pub trait MsgHarvester: Sized {
    /// What the harvester passes on when offered `m` in state `self`:
    /// `None` when it consumes the message.  The default declines everything.
    open spec fn spec_harvest_result(&self, m: Message) -> Option<Message> {
        Some(m)
    }

    /// How the state after being offered `m` relates to the state before.
    /// The default stays unchanged.
    open spec fn spec_harvest_post(&self, m: Message, post: Self) -> bool {
        post == *self
    }

    /// Offer one owned message to this harvester.
    fn harvest(&mut self, msg: Message) -> (r: Option<Message>)
        ensures
            r == old(self).spec_harvest_result(msg),
            old(self).spec_harvest_post(msg, *final(self)),
    ;
}

/// The message, if any, left over after threading `m` through the chain `hs`
/// in order, stopping at the first harvester that consumes it.
pub open spec fn spec_chain_result<H: MsgHarvester>(hs: Seq<H>, m: Option<Message>) -> Option<
    Message,
>
    decreases hs.len(),
{
    if hs.len() == 0 {
        m
    } else {
        let m2 = match m {
            Some(msg) => hs[0].spec_harvest_result(msg),
            None => None,
        };
        spec_chain_result(hs.drop_first(), m2)
    }
}

/// How the chain's states after threading `m` relate to its states before:
/// each harvester that was offered the message moved per its own
/// `spec_harvest_post`, and every harvester past the consuming one is
/// untouched.
pub open spec fn spec_chain_post<H: MsgHarvester>(
    hs: Seq<H>,
    m: Option<Message>,
    post: Seq<H>,
) -> bool
    decreases hs.len(),
{
    if hs.len() == 0 {
        post.len() == 0
    } else {
        &&& post.len() == hs.len()
        &&& match m {
            Some(msg) => {
                &&& hs[0].spec_harvest_post(msg, post[0])
                &&& spec_chain_post(
                    hs.drop_first(),
                    hs[0].spec_harvest_result(msg),
                    post.drop_first(),
                )
            },
            None => {
                &&& post[0] == hs[0]
                &&& spec_chain_post(hs.drop_first(), None, post.drop_first())
            },
        }
    }
}

/// A chain offered no message is left exactly as it was.
proof fn lemma_chain_none<H: MsgHarvester>(hs: Seq<H>)
    ensures
        spec_chain_result(hs, None) == None::<Message>,
        spec_chain_post(hs, None, hs),
    decreases hs.len(),
{
    if hs.len() > 0 {
        lemma_chain_none::<H>(hs.drop_first());
    }
}

/// Thread `m` through the harvesters from position `j` on.
fn harvest_from<H: MsgHarvester>(m: Message, harvesters: &mut Vec<H>, j: usize) -> (r: Option<
    Message,
>)
    requires
        j <= old(harvesters)@.len(),
    ensures
        final(harvesters)@.len() == old(harvesters)@.len(),
        final(harvesters)@.take(j as int) == old(harvesters)@.take(j as int),
        r == spec_chain_result(old(harvesters)@.skip(j as int), Some(m)),
        spec_chain_post(old(harvesters)@.skip(j as int), Some(m), final(harvesters)@.skip(j as int)),
    decreases old(harvesters)@.len() - j,
{
    let ghost pre = harvesters@;
    if j == harvesters.len() {
        proof {
            assert(pre.skip(j as int) =~= Seq::<H>::empty());
        }
        Some(m)
    } else {
        let mut h = harvesters.remove(j);
        let r0 = h.harvest(m);
        let ghost h2 = h;
        harvesters.insert(j, h);
        let ghost mid = harvesters@;
        proof {
            assert(mid =~= pre.update(j as int, h2));
            assert(mid.skip(j as int + 1) =~= pre.skip(j as int + 1));
            assert(pre.skip(j as int).drop_first() =~= pre.skip(j as int + 1));
            assert(pre.skip(j as int)[0] == pre[j as int]);
        }
        match r0 {
            Some(m2) => {
                let r = harvest_from(m2, harvesters, j + 1);
                proof {
                    let fin = harvesters@;
                    let a = fin.take(j as int + 1);
                    let b = mid.take(j as int + 1);
                    assert(a == b);
                    assert forall|k: int| 0 <= k < j implies fin.take(j as int)[k] == pre.take(
                        j as int,
                    )[k] by {
                        assert(fin.take(j as int)[k] == a[k]);
                        assert(pre.take(j as int)[k] == mid[k]);
                        assert(mid[k] == b[k]);
                    }
                    assert(fin.take(j as int) =~= pre.take(j as int));
                    assert(fin[j as int] == h2) by {
                        assert(a[j as int] == b[j as int]);
                    }
                    assert(fin.skip(j as int)[0] == fin[j as int]);
                    assert(fin.skip(j as int).drop_first() =~= fin.skip(j as int + 1));
                }
                r
            },
            None => {
                proof {
                    lemma_chain_none::<H>(pre.skip(j as int + 1));
                    assert(mid.take(j as int) =~= pre.take(j as int));
                    assert(mid.skip(j as int)[0] == h2);
                    assert(mid.skip(j as int).drop_first() =~= pre.skip(j as int + 1));
                }
                None
            },
        }
    }
}

/// Offer one message to each harvester in order, stopping at the first that
/// consumes it; harvesters after that one never see the message.  Returns the
/// leftover message when every harvester declines.
pub fn harvest<H: MsgHarvester>(msg: Message, harvesters: &mut Vec<H>) -> (r: Option<Message>)
    ensures
        final(harvesters)@.len() == old(harvesters)@.len(),
        r == spec_chain_result(old(harvesters)@, Some(msg)),
        spec_chain_post(old(harvesters)@, Some(msg), final(harvesters)@),
{
    let r = harvest_from(msg, harvesters, 0);
    proof {
        assert(old(harvesters)@.skip(0) =~= old(harvesters)@);
        assert(harvesters@.skip(0) =~= harvesters@);
    }
    r
}

} // verus!
