//! The delivery queue and the worker's retry protocol.
//!
//! Messages are enqueued by the translator side and delivered one at a time,
//! strictly in enqueue order.  A delivery attempt that the destination
//! answers with status 429 is retried for the same message after the
//! signaled backoff; any other status completes the message and the worker
//! moves to the next one.  `Relay` is the state of that pipeline: the
//! pending queue, the message currently being delivered, and ghost logs of
//! everything ever enqueued and everything the destination has accepted.
//!
//! The caller drives the cycle: `enqueue` on the producer side; on the
//! consumer side `begin_next`, then post the message `current` returns and
//! report the destination's status through `on_response`, repeating until the
//! message is delivered.  Network transport and the backoff sleep are the
//! caller's to perform; every decision is made here.

use vstd::prelude::*;

use crate::message::{Message, MessageView};

verus! {

/// What the worker must do after one delivery attempt.
#[derive(Debug, Clone, PartialEq, Eq)]
pub enum RetryDecision {
    /// The destination accepted the message (any status other than 429);
    /// move on to the next message.
    Proceed,
    /// The destination rate-limited the attempt; wait this many milliseconds
    /// and retry the same message.
    RetryAfterMillis(u64),
}

/// The decision the retry protocol makes for one response: retry exactly on
/// status 429, with the signaled backoff; every other status completes the
/// message.
pub open spec fn spec_retry_decision(status: u16, retry_after_millis: u64) -> RetryDecision {
    if status == 429 {
        RetryDecision::RetryAfterMillis(retry_after_millis)
    } else {
        RetryDecision::Proceed
    }
}

/// Classifies one delivery response: 429 means back off and retry the same
/// message, anything else means the message is done.
pub fn retry_decision(status: u16, retry_after_millis: u64) -> (d: RetryDecision)
    ensures
        d == spec_retry_decision(status, retry_after_millis),
{
    if status == 429 {
        RetryDecision::RetryAfterMillis(retry_after_millis)
    } else {
        RetryDecision::Proceed
    }
}

/// The outcome `on_response` reports: either the message now delivered, or
/// the backoff to observe before retrying it.
#[derive(Debug, Clone, PartialEq, Eq)]
pub enum DeliveryStep {
    /// The message was accepted; it is handed back to the caller.
    Delivered(Message),
    /// The attempt was rate-limited; sleep this many milliseconds, then post
    /// the same message again.
    RetryAfterMillis(u64),
}

/// The relay pipeline's state.
pub struct Relay {
    pending: Vec<Message>,
    inflight: Option<Message>,
    closed: bool,
    enq_log: Ghost<Seq<MessageView>>,
    done_log: Ghost<Seq<MessageView>>,
}

impl Relay {
    /// Every message ever enqueued, in enqueue order.
    pub closed spec fn enqueue_log(&self) -> Seq<MessageView> {
        self.enq_log@
    }

    /// Every message the destination has accepted, in the order it accepted
    /// them.
    pub closed spec fn delivered_log(&self) -> Seq<MessageView> {
        self.done_log@
    }

    /// The messages still waiting in the queue, front first.
    pub closed spec fn pending_view(&self) -> Seq<MessageView> {
        self.pending@.map_values(|m: Message| m@)
    }

    /// The message currently being delivered, as a sequence of length 0 or 1.
    pub closed spec fn inflight_view(&self) -> Seq<MessageView> {
        match self.inflight {
            Some(m) => seq![m@],
            None => Seq::<MessageView>::empty(),
        }
    }

    /// Whether a message is currently being delivered.
    pub closed spec fn has_inflight(&self) -> bool {
        self.inflight is Some
    }

    /// Whether the producer side has closed the queue.
    pub closed spec fn is_closed(&self) -> bool {
        self.closed
    }

    /// The pipeline invariant: every message ever enqueued is accounted for,
    /// in order — first the delivered ones, then the one in flight, then the
    /// pending queue.  Nothing is dropped, duplicated into the logs, or
    /// reordered.
    pub open spec fn wf(&self) -> bool {
        self.enqueue_log() == self.delivered_log() + self.inflight_view() + self.pending_view()
    }

    /// A fresh pipeline: open, empty, nothing delivered.
    pub fn new() -> (r: Relay)
        ensures
            r.wf(),
            r.enqueue_log() == Seq::<MessageView>::empty(),
            r.delivered_log() == Seq::<MessageView>::empty(),
            r.pending_view() == Seq::<MessageView>::empty(),
            !r.has_inflight(),
            !r.is_closed(),
    {
        let r = Relay {
            pending: Vec::new(),
            inflight: None,
            closed: false,
            enq_log: Ghost(Seq::empty()),
            done_log: Ghost(Seq::empty()),
        };
        proof {
            assert(r.pending_view() =~= Seq::<MessageView>::empty());
            assert(r.wf());
        }
        r
    }

    /// Appends a message to the back of the queue.
    pub fn enqueue(&mut self, m: Message)
        requires
            old(self).wf(),
            !old(self).is_closed(),
        ensures
            final(self).wf(),
            final(self).enqueue_log() == old(self).enqueue_log().push(m@),
            final(self).delivered_log() == old(self).delivered_log(),
            final(self).pending_view() == old(self).pending_view().push(m@),
            final(self).inflight_view() == old(self).inflight_view(),
            final(self).has_inflight() == old(self).has_inflight(),
            !final(self).is_closed(),
    {
        let ghost mv = m@;
        self.pending.push(m);
        self.enq_log = Ghost(self.enq_log@.push(mv));
        proof {
            assert(self.pending_view() =~= old(self).pending_view().push(mv));
            assert(self.enqueue_log() =~= self.delivered_log() + self.inflight_view()
                + self.pending_view());
        }
    }

    /// Closes the producer side; no further message will be enqueued.
    pub fn close(&mut self)
        requires
            old(self).wf(),
        ensures
            final(self).wf(),
            final(self).is_closed(),
            final(self).enqueue_log() == old(self).enqueue_log(),
            final(self).delivered_log() == old(self).delivered_log(),
            final(self).pending_view() == old(self).pending_view(),
            final(self).inflight_view() == old(self).inflight_view(),
            final(self).has_inflight() == old(self).has_inflight(),
    {
        self.closed = true;
    }

    /// Takes the front of the queue as the next message to deliver.  Returns
    /// whether there was one; when the queue is empty nothing changes.
    pub fn begin_next(&mut self) -> (started: bool)
        requires
            old(self).wf(),
            !old(self).has_inflight(),
        ensures
            final(self).wf(),
            started == (old(self).pending_view().len() > 0),
            final(self).enqueue_log() == old(self).enqueue_log(),
            final(self).delivered_log() == old(self).delivered_log(),
            final(self).is_closed() == old(self).is_closed(),
            started ==> final(self).has_inflight() && final(self).inflight_view() == seq![
                old(self).pending_view()[0],
            ] && final(self).pending_view() == old(self).pending_view().drop_first(),
            !started ==> !final(self).has_inflight()
                && final(self).pending_view() == old(self).pending_view(),
    {
        if self.pending.len() > 0 {
            let m = self.pending.remove(0);
            self.inflight = Some(m);
            proof {
                assert(self.pending_view() =~= old(self).pending_view().drop_first());
                assert(self.inflight_view() =~= seq![old(self).pending_view()[0]]);
                assert(self.enqueue_log() =~= self.delivered_log() + self.inflight_view()
                    + self.pending_view());
            }
            true
        } else {
            proof {
                assert(self.pending_view().len() == 0);
            }
            false
        }
    }

    /// The message currently being delivered; this is what the caller posts,
    /// on the first attempt and on every retry.
    pub fn current(&self) -> (r: &Message)
        requires
            self.has_inflight(),
        ensures
            r@ == self.inflight_view()[0],
    {
        self.inflight.as_ref().unwrap()
    }

    /// Applies the destination's response to the message in flight.  Exactly
    /// on status 429 the message stays in flight and the caller must back off
    /// by the given duration and retry it; on any other status the message is
    /// delivered, appended to the delivered log, and handed back.
    pub fn on_response(&mut self, status: u16, retry_after_millis: u64) -> (step: DeliveryStep)
        requires
            old(self).wf(),
            old(self).has_inflight(),
        ensures
            final(self).wf(),
            final(self).enqueue_log() == old(self).enqueue_log(),
            final(self).pending_view() == old(self).pending_view(),
            final(self).is_closed() == old(self).is_closed(),
            status == 429 ==> step == DeliveryStep::RetryAfterMillis(retry_after_millis)
                && final(self).inflight_view() == old(self).inflight_view()
                && final(self).has_inflight()
                && final(self).delivered_log() == old(self).delivered_log(),
            status != 429 ==> (step matches DeliveryStep::Delivered(m)
                && m@ == old(self).inflight_view()[0])
                && !final(self).has_inflight()
                && final(self).delivered_log()
                == old(self).delivered_log().push(old(self).inflight_view()[0]),
    {
        match retry_decision(status, retry_after_millis) {
            RetryDecision::RetryAfterMillis(ms) => DeliveryStep::RetryAfterMillis(ms),
            RetryDecision::Proceed => {
                let m = self.inflight.take().unwrap();
                self.done_log = Ghost(self.done_log@.push(m@));
                proof {
                    assert(self.inflight_view() =~= Seq::<MessageView>::empty());
                    assert(self.enqueue_log() =~= self.delivered_log() + self.inflight_view()
                        + self.pending_view());
                }
                DeliveryStep::Delivered(m)
            },
        }
    }

    /// Whether the worker is finished: the queue is closed and fully drained
    /// and no delivery is in progress.
    pub fn done(&self) -> (r: bool)
        requires
            self.wf(),
        ensures
            r == (self.is_closed() && !self.has_inflight() && self.pending_view().len() == 0),
    {
        self.closed && self.inflight.is_none() && self.pending.len() == 0
    }
}

/// Order preservation: in every well-formed pipeline state, the messages the
/// destination has accepted are exactly the earliest-enqueued ones, in
/// enqueue order — the delivered log is a prefix of the enqueue log, and what
/// remains (in flight, then pending) is the rest of the enqueue log in order.
pub proof fn lemma_delivery_order(r: &Relay)
    requires
        r.wf(),
    ensures
        r.delivered_log() == r.enqueue_log().take(r.delivered_log().len() as int),
        r.inflight_view() + r.pending_view() == r.enqueue_log().skip(
            r.delivered_log().len() as int,
        ),
{
    assert(r.delivered_log() =~= r.enqueue_log().take(r.delivered_log().len() as int));
    assert(r.inflight_view() + r.pending_view() =~= r.enqueue_log().skip(
        r.delivered_log().len() as int,
    ));
}

} // verus!
