//! The transmission schedule: an unbounded FIFO of requests and one worker
//! that renders a single transmission at a time.
//!
//! The worker loop itself (fetching speech, playing audio) runs outside; it
//! asks the schedule for the next request, and reports when that request's
//! playback has ended. The schedule keeps a ghost history of starts and ends,
//! from which it follows that playbacks never overlap and start in the order
//! their requests were accepted.
use vstd::prelude::*;
use std::collections::VecDeque;

verus! {

/// A playback starting or ending, with the ticket of its request.
#[derive(Clone, Copy, Debug, PartialEq, Eq, Structural)]
pub enum PlaybackEvent {
    Began(u64),
    Ended(u64),
}

pub open spec fn ticket_of(e: PlaybackEvent) -> u64 {
    match e {
        PlaybackEvent::Began(t) => t,
        PlaybackEvent::Ended(t) => t,
    }
}

/// A history in which starts and ends alternate, each end closing the start
/// just before it, and the starts carry increasing tickets.
pub open spec fn serial_history(h: Seq<PlaybackEvent>) -> bool {
    &&& forall|k: int| 0 <= k < h.len() ==> ((#[trigger] h[k]) is Began <==> k % 2 == 0)
    &&& forall|k: int|
        0 < k < h.len() && k % 2 == 1 ==> #[trigger] h[k] == PlaybackEvent::Ended(ticket_of(h[k - 1]))
    &&& forall|i: int, j: int|
        0 <= i < j < h.len() && i % 2 == 0 && j % 2 == 0 ==> ticket_of(#[trigger] h[i]) < ticket_of(
            #[trigger] h[j],
        )
}

/// How many playbacks a history has begun.
pub open spec fn begun(h: Seq<PlaybackEvent>) -> int {
    (h.len() as int + 1) / 2
}

pub struct Scheduler<T> {
    pending: VecDeque<(u64, T)>,
    active: Option<u64>,
    next_ticket: u64,
    history: Ghost<Seq<PlaybackEvent>>,
}

impl<T> Scheduler<T> {
    /// Requests waiting, oldest first, each with its ticket.
    pub closed spec fn queue(&self) -> Seq<(u64, T)> {
        self.pending@
    }

    /// The ticket of the request being rendered, if any.
    pub closed spec fn current(&self) -> Option<u64> {
        self.active
    }

    /// The ticket the next accepted request gets.
    pub closed spec fn next(&self) -> u64 {
        self.next_ticket
    }

    /// Every start and end of a playback so far, in order.
    pub closed spec fn events(&self) -> Seq<PlaybackEvent> {
        self.history@
    }

    pub closed spec fn wf(&self) -> bool {
        let h = self.history@;
        let q = self.pending@;
        &&& serial_history(h)
        &&& forall|i: int, j: int| 0 <= i < j < q.len() ==> (#[trigger] q[i]).0 < (#[trigger] q[j]).0
        &&& forall|k: int, p: int|
            0 <= k < h.len() && 0 <= p < q.len() ==> ticket_of(#[trigger] h[k]) < (#[trigger] q[p]).0
        &&& forall|p: int| 0 <= p < q.len() ==> (#[trigger] q[p]).0 < self.next_ticket
        &&& forall|k: int| 0 <= k < h.len() ==> ticket_of(#[trigger] h[k]) < self.next_ticket
        &&& (self.active is Some <==> h.len() % 2 == 1)
        &&& (self.active matches Some(t) ==> h.last() == PlaybackEvent::Began(t))
        &&& forall|k: int| 0 <= k < h.len() && k % 2 == 0 ==> ticket_of(#[trigger] h[k]) == k / 2
        &&& forall|p: int| 0 <= p < q.len() ==> (#[trigger] q[p]).0 == begun(h) + p
        &&& self.next_ticket == begun(h) + q.len()
    }

    pub fn new() -> (r: Self)
        ensures
            r.wf(),
            r.queue() == Seq::<(u64, T)>::empty(),
            r.current() is None,
            r.events() == Seq::<PlaybackEvent>::empty(),
            r.next() == 0,
    {
        Scheduler { pending: VecDeque::new(), active: None, next_ticket: 0, history: Ghost(Seq::empty()) }
    }

    /// Accepts a request at the back of the queue and returns its ticket.
    /// Never waits on the worker.
    pub fn enqueue(&mut self, item: T) -> (ticket: u64)
        requires
            old(self).wf(),
            old(self).next() < u64::MAX,
        ensures
            final(self).wf(),
            ticket == old(self).next(),
            final(self).next() == ticket + 1,
            final(self).queue() == old(self).queue().push((ticket, item)),
            final(self).current() == old(self).current(),
            final(self).events() == old(self).events(),
    {
        let ticket = self.next_ticket;
        let ghost q0 = self.pending@;
        self.pending.push_back((ticket, item));
        self.next_ticket = ticket + 1;
        proof {
            let q = self.pending@;
            assert forall|p: int| 0 <= p < q.len() implies (#[trigger] q[p]).0 == begun(self.history@) + p by {
                if p < q0.len() {
                    assert(q[p] == q0[p]);
                }
            }
        }
        ticket
    }

    /// Whether another request can get a ticket.
    pub fn can_accept(&self) -> (r: bool)
        ensures
            r == (self.next() < u64::MAX),
    {
        self.next_ticket < u64::MAX
    }

    /// Whether a request is being rendered.
    pub fn is_busy(&self) -> (r: bool)
        ensures
            r == self.current() is Some,
    {
        self.active.is_some()
    }

    /// Number of requests waiting.
    pub fn pending_len(&self) -> (r: usize)
        ensures
            r == self.queue().len(),
    {
        self.pending.len()
    }

    /// Hands the worker the oldest waiting request, if the worker is free and
    /// one waits; its playback then counts as begun.
    pub fn begin_next(&mut self) -> (r: Option<(u64, T)>)
        requires
            old(self).wf(),
        ensures
            final(self).wf(),
            final(self).next() == old(self).next(),
            old(self).current() is Some || old(self).queue().len() == 0 ==> r is None && final(self).queue()
                == old(self).queue() && final(self).current() == old(self).current() && final(self).events()
                == old(self).events(),
            old(self).current() is None && old(self).queue().len() > 0 ==> r == Some(old(self).queue()[0])
                && final(self).queue() == old(self).queue().drop_first() && final(self).current() == Some(
                old(self).queue()[0].0,
            ) && final(self).events() == old(self).events().push(
                PlaybackEvent::Began(old(self).queue()[0].0),
            ),
    {
        if self.active.is_some() {
            return None;
        }
        let ghost q0 = self.pending@;
        let ghost h0 = self.history@;
        match self.pending.pop_front() {
            None => None,
            Some((ticket, item)) => {
                self.active = Some(ticket);
                self.history = Ghost(self.history@.push(PlaybackEvent::Began(ticket)));
                proof {
                    let h = self.history@;
                    assert(h.len() == h0.len() + 1);
                    assert forall|k: int| 0 <= k < h.len() implies ((#[trigger] h[k]) is Began <==> k % 2 == 0) by {
                        if k < h0.len() {
                            assert(h[k] == h0[k]);
                        }
                    }
                    assert forall|k: int|
                        0 < k < h.len() && k % 2 == 1 implies #[trigger] h[k] == PlaybackEvent::Ended(
                            ticket_of(h[k - 1]),
                        ) by {
                        assert(h[k] == h0[k]);
                        assert(h[k - 1] == h0[k - 1]);
                    }
                    assert forall|i: int, j: int|
                        0 <= i < j < h.len() && i % 2 == 0 && j % 2 == 0 implies ticket_of(#[trigger] h[i])
                        < ticket_of(#[trigger] h[j]) by {
                        assert(h[i] == h0[i]);
                        if j < h0.len() {
                            assert(h[j] == h0[j]);
                        } else {
                            assert(ticket_of(h0[i]) < q0[0].0);
                        }
                    }
                    let q = self.pending@;
                    assert forall|i: int, j: int| 0 <= i < j < q.len() implies (#[trigger] q[i]).0 < (
                    #[trigger] q[j]).0 by {
                        assert(q[i] == q0[i + 1]);
                        assert(q[j] == q0[j + 1]);
                    }
                    assert forall|k: int, p: int|
                        0 <= k < h.len() && 0 <= p < q.len() implies ticket_of(#[trigger] h[k]) < (
                        #[trigger] q[p]).0 by {
                        assert(q[p] == q0[p + 1]);
                        if k < h0.len() {
                            assert(h[k] == h0[k]);
                        } else {
                            assert(q0[0].0 < q0[p + 1].0);
                        }
                    }
                    assert forall|p: int| 0 <= p < q.len() implies (#[trigger] q[p]).0 < self.next_ticket by {
                        assert(q[p] == q0[p + 1]);
                    }
                    assert forall|p: int| 0 <= p < q.len() implies (#[trigger] q[p]).0 == begun(h) + p by {
                        assert(q[p] == q0[p + 1]);
                    }
                    assert forall|k: int| 0 <= k < h.len() && k % 2 == 0 implies ticket_of(#[trigger] h[k]) == k / 2 by {
                        if k < h0.len() {
                            assert(h[k] == h0[k]);
                        }
                    }
                    assert forall|k: int| 0 <= k < h.len() implies ticket_of(#[trigger] h[k]) < self.next_ticket by {
                        if k < h0.len() {
                            assert(h[k] == h0[k]);
                        } else {
                            assert(q0[0].0 < self.next_ticket);
                        }
                    }
                }
                Some((ticket, item))
            },
        }
    }

    /// Records that the current request's playback has fully ended, which
    /// frees the worker for the next one.
    pub fn finish(&mut self) -> (ticket: u64)
        requires
            old(self).wf(),
            old(self).current() is Some,
        ensures
            final(self).wf(),
            Some(ticket) == old(self).current(),
            final(self).current() is None,
            final(self).queue() == old(self).queue(),
            final(self).next() == old(self).next(),
            final(self).events() == old(self).events().push(PlaybackEvent::Ended(ticket)),
    {
        let ticket = match self.active {
            Some(t) => t,
            None => 0,
        };
        let ghost h0 = self.history@;
        self.active = None;
        self.history = Ghost(self.history@.push(PlaybackEvent::Ended(ticket)));
        proof {
            let h = self.history@;
            let q = self.pending@;
            assert forall|k: int| 0 <= k < h.len() implies ((#[trigger] h[k]) is Began <==> k % 2 == 0) by {
                if k < h0.len() {
                    assert(h[k] == h0[k]);
                }
            }
            assert forall|k: int|
                0 < k < h.len() && k % 2 == 1 implies #[trigger] h[k] == PlaybackEvent::Ended(
                    ticket_of(h[k - 1]),
                ) by {
                assert(h[k - 1] == h0[k - 1]);
                if k < h0.len() {
                    assert(h[k] == h0[k]);
                }
            }
            assert forall|i: int, j: int|
                0 <= i < j < h.len() && i % 2 == 0 && j % 2 == 0 implies ticket_of(#[trigger] h[i])
                < ticket_of(#[trigger] h[j]) by {
                assert(h[i] == h0[i]);
                assert(h[j] == h0[j]);
            }
            assert forall|k: int, p: int|
                0 <= k < h.len() && 0 <= p < q.len() implies ticket_of(#[trigger] h[k]) < (
                #[trigger] q[p]).0 by {
                if k < h0.len() {
                    assert(h[k] == h0[k]);
                } else {
                    assert(h0[k - 1] == h0.last());
                }
            }
            assert forall|k: int| 0 <= k < h.len() implies ticket_of(#[trigger] h[k]) < self.next_ticket by {
                if k < h0.len() {
                    assert(h[k] == h0[k]);
                } else {
                    assert(h0[k - 1] == h0.last());
                }
            }
            assert forall|k: int| 0 <= k < h.len() && k % 2 == 0 implies ticket_of(#[trigger] h[k]) == k / 2 by {
                assert(h[k] == h0[k]);
            }
        }
        ticket
    }
}

/// Playbacks never overlap and start in the order their requests were
/// accepted, none skipped: in every reachable history, each playback has
/// ended before the next one begins, the `n`-th playback to begin is that of
/// the `n`-th request accepted, and every waiting request was accepted after
/// all that have begun.
pub proof fn lemma_playbacks_serial<T>(s: Scheduler<T>)
    requires
        s.wf(),
    ensures
        serial_history(s.events()),
        forall|i: int, j: int|
            0 <= i < j < s.events().len() && (#[trigger] s.events()[i]) is Began && (
            #[trigger] s.events()[j]) is Began ==> i + 1 < j && s.events()[i + 1] == PlaybackEvent::Ended(
                ticket_of(s.events()[i]),
            ) && ticket_of(s.events()[i]) < ticket_of(s.events()[j]),
        forall|k: int, p: int|
            0 <= k < s.events().len() && 0 <= p < s.queue().len() ==> ticket_of(#[trigger] s.events()[k])
                < (#[trigger] s.queue()[p]).0,
        forall|k: int| 0 <= k < s.events().len() && k % 2 == 0 ==> ticket_of(#[trigger] s.events()[k]) == k / 2,
{
    let h = s.events();
    assert forall|i: int, j: int|
        0 <= i < j < h.len() && (#[trigger] h[i]) is Began && (#[trigger] h[j]) is Began implies i + 1 < j
        && h[i + 1] == PlaybackEvent::Ended(ticket_of(h[i])) && ticket_of(h[i]) < ticket_of(h[j]) by {
        assert(i % 2 == 0);
        assert(j % 2 == 0);
        assert((i + 1) % 2 == 1);
        assert(h[i + 1] == PlaybackEvent::Ended(ticket_of(h[i + 1 - 1])));
    }
}

} // verus!
