//! The connection driver: handshake, then a serving phase that tracks the
//! exchanges multiplexed on the connection, accepts new streams, prunes
//! finished exchanges in arrival order and keeps an idle timer.
use vstd::prelude::*;
use std::collections::VecDeque;
use crate::dispatch::{dispatch, first_match, prefix_views};
use crate::entry::Entry;
use crate::payload::{select_sink, sink_for, SinkKind};

verus! {

/// Phase of the connection.
#[derive(Clone, Copy, Debug, PartialEq, Eq, Structural)]
pub enum Phase {
    /// Protocol negotiation is under way.
    Handshaking,
    /// A session is established and yields streams.
    Serving,
    /// Placeholder while the phase is being replaced.
    Closed,
}

/// Result of polling the protocol negotiation.
#[derive(Clone, Copy, Debug, PartialEq, Eq, Structural)]
pub enum HandshakeEvent {
    Ready,
    NotReady,
    Failed,
}

/// What one invocation of the driver reports to the executor.
#[derive(Clone, Copy, Debug, PartialEq, Eq, Structural)]
pub enum Outcome {
    /// Nothing more can happen until the next wake-up.
    Pending,
    /// The connection is torn down.
    Done,
    /// The negotiation failed.
    Failed,
}

/// What the protocol session yielded on one poll.
pub enum EngineEvent {
    /// A new stream, with its request path and `Content-Encoding` header.
    Stream { path: Vec<u8>, encoding: Option<Vec<u8>> },
    /// The peer closed the connection.
    End,
    NotReady,
    /// The session failed.
    Failed,
}

/// What the driver does after polling the session.
#[derive(Clone, Copy, Debug, PartialEq, Eq, Structural)]
pub enum EngineAction {
    /// Start the task of this handler (`None`: the not-found reply) with this
    /// body sink, for the exchange just appended; cancel the idle timer.
    Accept { handler: Option<usize>, sink: SinkKind },
    /// Tell every open task that the peer is gone; drop the idle timer if
    /// `drop_timer`.
    Disconnect { drop_timer: bool },
    /// Start the idle timer.
    ArmTimer,
    /// Nothing to do.
    Wait,
    /// The peer is closed: the session is not polled any more.
    Ignore,
}

/// The driver of one connection.
pub struct Http2 {
    /// Path prefixes of the registered handlers, in registration order.
    pub prefixes: Vec<Vec<u8>>,
    pub phase: Phase,
    /// The peer is known to be closed.
    pub disconnected: bool,
    /// The open exchanges, oldest first.
    pub entries: VecDeque<Entry>,
    /// The idle timer exists.
    pub timer_armed: bool,
}

/// `after` is `before` without its longest completed prefix, of length `n`.
pub open spec fn pruned_from(before: Seq<Entry>, after: Seq<Entry>, n: int) -> bool {
    &&& 0 <= n <= before.len()
    &&& after == before.subrange(n, before.len() as int)
    &&& forall|k: int| 0 <= k < n ==> (#[trigger] before[k]).complete()
    &&& n < before.len() ==> !before[n].complete()
}

impl Http2 {
    pub open spec fn wf(&self) -> bool {
        &&& self.timer_armed ==> self.entries@.len() == 0
        &&& self.phase == Phase::Handshaking ==> self.entries@.len() == 0 && !self.disconnected
            && !self.timer_armed
    }

    /// A driver in the handshake phase, for the given handler prefixes.
    pub fn new(prefixes: Vec<Vec<u8>>) -> (r: Http2)
        ensures
            r.wf(),
            r.prefixes@ == prefixes@,
            r.phase == Phase::Handshaking,
            !r.disconnected,
            r.entries@.len() == 0,
            !r.timer_armed,
    {
        Http2 {
            prefixes,
            phase: Phase::Handshaking,
            disconnected: false,
            entries: VecDeque::new(),
            timer_armed: false,
        }
    }

    /// Takes the result of polling the negotiation. On success the driver
    /// serves (and the caller goes on with a serving pass); otherwise the
    /// invocation ends with the reported outcome.
    pub fn on_handshake(&mut self, ev: HandshakeEvent) -> (r: Option<Outcome>)
        requires
            old(self).wf(),
            old(self).phase == Phase::Handshaking,
        ensures
            final(self).wf(),
            final(self).prefixes == old(self).prefixes,
            final(self).entries == old(self).entries,
            final(self).disconnected == old(self).disconnected,
            final(self).timer_armed == old(self).timer_armed,
            ev == HandshakeEvent::Ready ==> r is None && final(self).phase == Phase::Serving,
            ev == HandshakeEvent::NotReady ==> r == Some(Outcome::Pending) && final(self).phase
                == Phase::Handshaking,
            ev == HandshakeEvent::Failed ==> r == Some(Outcome::Failed) && final(self).phase
                == Phase::Handshaking,
    {
        match ev {
            HandshakeEvent::Ready => {
                self.phase = Phase::Serving;
                None
            },
            HandshakeEvent::NotReady => Some(Outcome::Pending),
            HandshakeEvent::Failed => Some(Outcome::Failed),
        }
    }

    /// Takes the result of polling the idle timer at the start of an
    /// invocation: if it fired, the connection is done.
    pub fn on_timer(&self, fired: bool) -> (r: Option<Outcome>)
        ensures
            r == (if self.timer_armed && fired {
                Some(Outcome::Done)
            } else {
                None
            }),
    {
        if self.timer_armed && fired {
            Some(Outcome::Done)
        } else {
            None
        }
    }

    /// Removes the longest run of completed exchanges at the front, and
    /// returns how many left. An exchange behind an open one stays.
    pub fn prune(&mut self) -> (r: usize)
        requires
            old(self).wf(),
        ensures
            final(self).wf(),
            pruned_from(old(self).entries@, final(self).entries@, r as int),
            final(self).prefixes == old(self).prefixes,
            final(self).phase == old(self).phase,
            final(self).disconnected == old(self).disconnected,
            final(self).timer_armed == old(self).timer_armed,
    {
        let ghost before = self.entries@;
        let ghost start = *self;
        let total = self.entries.len();
        let mut n: usize = 0;
        while self.entries.len() > 0 && self.entries[0].is_complete()
            invariant
                n <= before.len(),
                total == before.len(),
                self.prefixes == start.prefixes,
                self.phase == start.phase,
                self.disconnected == start.disconnected,
                self.timer_armed == start.timer_armed,
                self.entries@ == before.subrange(n as int, before.len() as int),
                forall|k: int| 0 <= k < n ==> (#[trigger] before[k]).complete(),
                self.wf(),
            decreases self.entries@.len(),
        {
            self.entries.pop_front();
            n = n + 1;
        }
        n
    }

    /// Takes the result of polling the session (the caller polls it only
    /// while the peer is not known closed). A new stream becomes an exchange
    /// at the back, served by the first handler whose prefix its path starts
    /// with, and cancels the idle timer; the end of the connection or a
    /// failure marks the peer closed; with nothing new and no exchange open,
    /// the idle timer is started unless it runs already.
    pub fn on_engine(&mut self, ev: EngineEvent) -> (r: EngineAction)
        requires
            old(self).wf(),
            old(self).phase == Phase::Serving,
        ensures
            final(self).wf(),
            final(self).prefixes == old(self).prefixes,
            final(self).phase == old(self).phase,
            old(self).disconnected ==> r == EngineAction::Ignore && *final(self) == *old(self),
            !old(self).disconnected ==> match ev {
                EngineEvent::Stream { path, encoding } => {
                    let sink = sink_for(
                        match encoding {
                            Some(v) => Some(v@),
                            None => None,
                        },
                    );
                    &&& r matches EngineAction::Accept { handler, sink: s }
                    &&& s == sink
                    &&& first_match(prefix_views(old(self).prefixes@), path@, handler)
                    &&& final(self).entries@.len() == old(self).entries@.len() + 1
                    &&& final(self).entries@.subrange(0, old(self).entries@.len() as int)
                        == old(self).entries@
                    &&& final(self).entries@.last().handler == handler
                    &&& final(self).entries@.last().sink == sink
                    &&& final(self).entries@.last().is_fresh()
                    &&& !final(self).timer_armed
                    &&& !final(self).disconnected
                },
                EngineEvent::End => {
                    &&& r == EngineAction::Disconnect { drop_timer: false }
                    &&& final(self).disconnected
                    &&& final(self).entries == old(self).entries
                    &&& final(self).timer_armed == old(self).timer_armed
                },
                EngineEvent::NotReady => {
                    &&& (r == EngineAction::ArmTimer) == (old(self).entries@.len() == 0
                        && !old(self).timer_armed)
                    &&& r != EngineAction::ArmTimer ==> r == EngineAction::Wait
                    &&& final(self).timer_armed == (old(self).timer_armed || r
                        == EngineAction::ArmTimer)
                    &&& final(self).entries == old(self).entries
                    &&& !final(self).disconnected
                },
                EngineEvent::Failed => {
                    &&& r == EngineAction::Disconnect { drop_timer: true }
                    &&& final(self).disconnected
                    &&& final(self).entries == old(self).entries
                    &&& !final(self).timer_armed
                },
            },
    {
        if self.disconnected {
            return EngineAction::Ignore;
        }
        match ev {
            EngineEvent::Stream { path, encoding } => {
                let handler = dispatch(&self.prefixes, path.as_slice());
                let sink = match &encoding {
                    Some(v) => select_sink(Some(v.as_slice())),
                    None => select_sink(None),
                };
                let ghost before = self.entries@;
                self.entries.push_back(Entry::new(handler, sink));
                assert(self.entries@.subrange(0, before.len() as int) =~= before);
                self.timer_armed = false;
                EngineAction::Accept { handler, sink }
            },
            EngineEvent::End => {
                self.disconnected = true;
                EngineAction::Disconnect { drop_timer: false }
            },
            EngineEvent::NotReady => {
                if self.entries.len() == 0 && !self.timer_armed {
                    self.timer_armed = true;
                    EngineAction::ArmTimer
                } else {
                    EngineAction::Wait
                }
            },
            EngineEvent::Failed => {
                self.disconnected = true;
                self.timer_armed = false;
                EngineAction::Disconnect { drop_timer: true }
            },
        }
    }

    /// Ends a serving pass: another pass if anything progressed in it;
    /// otherwise the connection is done once the peer is closed and no
    /// exchange is left, and pending until the next wake-up before that.
    pub fn poll(&self, progressed: bool) -> (r: Option<Outcome>)
        ensures
            progressed ==> r is None,
            !progressed ==> r == Some(
                if self.entries@.len() == 0 && self.disconnected {
                    Outcome::Done
                } else {
                    Outcome::Pending
                },
            ),
    {
        if progressed {
            None
        } else if self.entries.len() == 0 && self.disconnected {
            Some(Outcome::Done)
        } else {
            Some(Outcome::Pending)
        }
    }
}

} // verus!

verus! {

/// Pruning removes exchanges only from the front and only completed ones:
/// each removed exchange is complete and was removed together with every
/// older one, so exchanges leave in arrival order and the rest keep theirs.
pub proof fn lemma_prune_removes_completed_heads(before: Seq<Entry>, after: Seq<Entry>, n: int)
    requires
        pruned_from(before, after, n),
    ensures
        forall|k: int| 0 <= k < n ==> (#[trigger] before[k]).complete(),
        after.len() == before.len() - n,
        forall|k: int| 0 <= k < after.len() ==> #[trigger] after[k] == before[k + n],
{
}

/// An exchange that is complete while an older one is still open stays in
/// the collection, at its place behind that older one.
pub proof fn lemma_prune_keeps_stragglers(
    before: Seq<Entry>,
    after: Seq<Entry>,
    n: int,
    j: int,
    k: int,
)
    requires
        pruned_from(before, after, n),
        0 <= j < k < before.len(),
        !before[j].complete(),
    ensures
        n <= j,
        0 <= k - n < after.len(),
        after[k - n] == before[k],
        after[j - n] == before[j],
{
}

} // verus!
