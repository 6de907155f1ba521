//! One request/response exchange on the connection: its completion flags,
//! its body flow control and the decisions taken on each poll of its task.
use vstd::prelude::*;
use crate::bytes_spec::bytes_content;
use crate::payload::SinkKind;

verus! {

/// What the body receiver of an exchange yielded on one poll.
pub enum BodyEvent {
    Chunk(bytes::Bytes),
    /// The peer ended the body.
    End,
    NotReady,
    /// The receive stream failed.
    Failed,
}

/// What to do with the body sink after one receiver poll.
pub enum BodyAction {
    /// Feed this chunk to the sink, then poll the receiver again.
    Feed(bytes::Bytes),
    /// Record a body error on the sink; stop polling the receiver this pass.
    SetError,
    /// Stop polling the receiver this pass.
    Stop,
}

/// Which poll of the application task an exchange needs in this pass.
#[derive(Clone, Copy, Debug, PartialEq, Eq, Structural)]
pub enum TaskPoll {
    /// Poll I/O progress against the response writer and the request.
    Io,
    /// The request is consumed: poll for completion alone.
    Completion,
    /// The task is done: nothing to poll.
    Idle,
}

/// Result of a task's I/O poll. `Ready(true)` means that the whole exchange
/// is complete, `Ready(false)` that the request is consumed but the task
/// still runs.
#[derive(Clone, Copy, Debug, PartialEq, Eq, Structural)]
pub enum IoEvent {
    Ready(bool),
    NotReady,
    Failed,
}

/// Result of a task's completion poll.
#[derive(Clone, Copy, Debug, PartialEq, Eq, Structural)]
pub enum CompletionEvent {
    Ready,
    NotReady,
    Failed,
}

/// What the driver does after a task poll.
#[derive(Clone, Copy, Debug, PartialEq, Eq, Structural)]
pub enum TaskAction {
    /// The exchange moved on: another pass is worth making.
    Progress,
    /// Reset the exchange's stream with an internal-error reason.
    Reset,
    /// Nothing changed that another pass could use.
    Nothing,
}

/// Book-keeping of one exchange.
#[derive(Clone, Copy)]
pub struct Entry {
    /// Index of the handler that serves it, `None` for the not-found reply.
    pub handler: Option<usize>,
    /// Where its body goes.
    pub sink: SinkKind,
    /// No more body bytes will be delivered to the application.
    pub eof: bool,
    /// An unrecoverable fault occurred.
    pub error: bool,
    /// The application task has completed.
    pub finished: bool,
    /// The receive stream has ended.
    pub reof: bool,
    /// The consumer capacity last granted to the transport.
    pub capacity: usize,
    /// Every body byte fed to the sink so far, in order.
    pub fed: Ghost<Seq<u8>>,
}

/// The credit granted when the consumer capacity goes from `prev` to `cap`:
/// the growth, or none when it did not grow.
pub open spec fn grant_for(prev: usize, cap: usize) -> Option<usize> {
    if cap > prev {
        Some((cap - prev) as usize)
    } else {
        None
    }
}

/// The amount of a grant, zero for none.
pub open spec fn grant_amount(g: Option<usize>) -> int {
    match g {
        Some(n) => n as int,
        None => 0,
    }
}

/// Total credit granted over a run of capacity observations `caps`, starting
/// from the recorded capacity `prev`.
pub open spec fn granted_total(prev: usize, caps: Seq<usize>) -> int
    decreases caps.len(),
{
    if caps.len() == 0 {
        0
    } else {
        grant_amount(grant_for(prev, caps[0])) + granted_total(caps[0], caps.drop_first())
    }
}

/// The recorded capacity after a run of observations.
pub open spec fn last_capacity(prev: usize, caps: Seq<usize>) -> usize {
    if caps.len() == 0 {
        prev
    } else {
        caps.last()
    }
}

/// While the consumer capacity never shrinks, the credits granted over a run
/// of observations add up to exactly its growth: each grant is the delta
/// between consecutive observations, and an unchanged capacity grants nothing.
pub proof fn lemma_grants_sum_to_growth(prev: usize, caps: Seq<usize>)
    requires
        forall|i: int| 0 <= i < caps.len() ==> (if i == 0 { prev } else { caps[i - 1] }) <= #[trigger] caps[i],
    ensures
        granted_total(prev, caps) == last_capacity(prev, caps) - prev,
    decreases caps.len(),
{
    if caps.len() > 0 {
        let rest = caps.drop_first();
        assert forall|i: int| 0 <= i < rest.len() implies (if i == 0 { caps[0] } else { rest[i - 1] }) <= #[trigger] rest[i] by {
            assert(rest[i] == caps[i + 1]);
            assert(caps[i] <= caps[i + 1]);
        }
        assert(prev <= caps[0]);
        lemma_grants_sum_to_growth(caps[0], rest);
        if rest.len() > 0 {
            assert(rest.last() == caps.last());
        }
    }
}

impl Entry {
    /// The exchange may leave the collection (once it is at its head).
    pub open spec fn complete(&self) -> bool {
        (self.eof && self.finished) || self.error
    }

    /// A fresh exchange: nothing received, nothing finished.
    pub open spec fn is_fresh(&self) -> bool {
        &&& !self.eof
        &&& !self.error
        &&& !self.finished
        &&& !self.reof
        &&& self.capacity == 0
        &&& self.fed@ == Seq::<u8>::empty()
    }

    pub fn new(handler: Option<usize>, sink: SinkKind) -> (r: Entry)
        ensures
            r.handler == handler,
            r.sink == sink,
            r.is_fresh(),
    {
        Entry {
            handler,
            sink,
            eof: false,
            error: false,
            finished: false,
            reof: false,
            capacity: 0,
            fed: Ghost(Seq::empty()),
        }
    }

    pub fn is_complete(&self) -> (r: bool)
        ensures
            r == self.complete(),
    {
        (self.eof && self.finished) || self.error
    }

    /// Whether the body receiver is still to be polled.
    pub fn body_open(&self) -> (r: bool)
        ensures
            r == !self.reof,
    {
        !self.reof
    }

    /// Takes one result of the body receiver. A chunk is handed on to the
    /// sink, and is appended to what the sink has been fed; the end of the
    /// body closes the receiver; a failure is recorded on the sink.
    pub fn on_body(&mut self, ev: BodyEvent) -> (r: BodyAction)
        requires
            !old(self).reof,
        ensures
            final(self).handler == old(self).handler,
            final(self).sink == old(self).sink,
            final(self).eof == old(self).eof,
            final(self).error == old(self).error,
            final(self).finished == old(self).finished,
            final(self).capacity == old(self).capacity,
            match ev {
                BodyEvent::Chunk(c) => r == BodyAction::Feed(c) && final(self).fed@ == old(
                    self,
                ).fed@ + bytes_content(c) && !final(self).reof,
                BodyEvent::End => r == BodyAction::Stop && final(self).reof && final(self).fed@
                    == old(self).fed@,
                BodyEvent::NotReady => r == BodyAction::Stop && !final(self).reof
                    && final(self).fed@ == old(self).fed@,
                BodyEvent::Failed => r == BodyAction::SetError && !final(self).reof
                    && final(self).fed@ == old(self).fed@,
            },
    {
        match ev {
            BodyEvent::Chunk(c) => {
                self.fed = Ghost(self.fed@ + bytes_content(c));
                BodyAction::Feed(c)
            },
            BodyEvent::End => {
                self.reof = true;
                BodyAction::Stop
            },
            BodyEvent::NotReady => BodyAction::Stop,
            BodyEvent::Failed => BodyAction::SetError,
        }
    }

    /// Compares the consumer's current intake capacity with the last one
    /// recorded (also in the pass in which the body ended). Returns the credit to grant to the transport: the growth, if
    /// it grew; nothing if it is unchanged or shrank (a credit cannot be
    /// taken back). The new value is recorded either way.
    pub fn on_capacity(&mut self, capacity: usize) -> (r: Option<usize>)
        ensures
            *final(self) == (Entry { capacity, ..*old(self) }),
            r == grant_for(old(self).capacity, capacity),
    {
        let prev = self.capacity;
        self.capacity = capacity;
        if capacity > prev {
            Some(capacity - prev)
        } else {
            None
        }
    }

    /// Which poll the task needs in this pass.
    pub fn next_poll(&self) -> (r: TaskPoll)
        ensures
            !self.eof ==> r == TaskPoll::Io,
            self.eof && !self.finished ==> r == TaskPoll::Completion,
            self.eof && self.finished ==> r == TaskPoll::Idle,
    {
        if !self.eof {
            TaskPoll::Io
        } else if !self.finished {
            TaskPoll::Completion
        } else {
            TaskPoll::Idle
        }
    }

    /// Takes the result of an I/O poll of the task. Readiness ends the
    /// request (`eof`) and, when the exchange is complete, the task; a
    /// failure ends the request with an error and resets the stream.
    pub fn on_io(&mut self, ev: IoEvent) -> (r: TaskAction)
        requires
            !old(self).eof,
        ensures
            final(self).handler == old(self).handler,
            final(self).sink == old(self).sink,
            final(self).reof == old(self).reof,
            final(self).capacity == old(self).capacity,
            final(self).fed == old(self).fed,
            match ev {
                IoEvent::Ready(done) => r == TaskAction::Progress && final(self).eof
                    && final(self).finished == (old(self).finished || done) && final(self).error
                    == old(self).error,
                IoEvent::NotReady => r == TaskAction::Nothing && *final(self) == *old(self),
                IoEvent::Failed => r == TaskAction::Reset && final(self).eof && final(self).error
                    && final(self).finished == old(self).finished,
            },
    {
        match ev {
            IoEvent::Ready(done) => {
                self.eof = true;
                if done {
                    self.finished = true;
                }
                TaskAction::Progress
            },
            IoEvent::NotReady => TaskAction::Nothing,
            IoEvent::Failed => {
                self.eof = true;
                self.error = true;
                TaskAction::Reset
            },
        }
    }

    /// Takes the result of a completion poll of the task: readiness finishes
    /// it, a failure finishes it with an error (no reset: the application
    /// ended the exchange itself).
    pub fn on_completion(&mut self, ev: CompletionEvent) -> (r: TaskAction)
        requires
            old(self).eof,
            !old(self).finished,
        ensures
            final(self).handler == old(self).handler,
            final(self).sink == old(self).sink,
            final(self).eof == old(self).eof,
            final(self).reof == old(self).reof,
            final(self).capacity == old(self).capacity,
            final(self).fed == old(self).fed,
            match ev {
                CompletionEvent::Ready => r == TaskAction::Progress && final(self).finished
                    && final(self).error == old(self).error,
                CompletionEvent::NotReady => r == TaskAction::Nothing && *final(self) == *old(
                    self,
                ),
                CompletionEvent::Failed => r == TaskAction::Nothing && final(self).finished
                    && final(self).error,
            },
    {
        match ev {
            CompletionEvent::Ready => {
                self.finished = true;
                TaskAction::Progress
            },
            CompletionEvent::NotReady => TaskAction::Nothing,
            CompletionEvent::Failed => {
                self.finished = true;
                self.error = true;
                TaskAction::Nothing
            },
        }
    }
}

} // verus!
