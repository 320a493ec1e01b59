use vstd::prelude::*;
use crate::models::JobResult;

verus! {

/// Interval between two lookups of the waiting stream, in milliseconds.
pub const POLL_INTERVAL_MS: u64 = 500;

/// Lookups made before the waiting stream gives up (60 seconds in all).
pub const MAX_POLLS: u32 = 120;

/// Interval of the transport's keep-alive frames, in seconds.
pub const KEEP_ALIVE_SECS: u64 = 1;

/// Where a waiting stream stands: still waiting after `n` empty lookups, or closed.
#[derive(Debug, Clone, Copy, PartialEq, Eq, Structural)]
pub enum StreamState {
    Pending(u32),
    Done,
}

/// A typed event of the waiting stream.
#[derive(Debug)]
pub enum StreamEvent {
    /// The result is not there yet.
    Pending,
    /// The result, which ends the stream.
    Complete(JobResult),
    /// No result came in time, which ends the stream.
    Timeout,
}

/// The event a stream in state `s` emits, and its next state, given what a
/// lookup found; `None` closes the stream.
pub open spec fn stream_step_of(s: StreamState, found: Option<JobResult>) -> Option<(StreamEvent, StreamState)> {
    match s {
        StreamState::Done => None,
        StreamState::Pending(n) => {
            if n >= MAX_POLLS {
                Some((StreamEvent::Timeout, StreamState::Done))
            } else {
                match found {
                    Some(res) => Some((StreamEvent::Complete(res), StreamState::Done)),
                    None => Some((StreamEvent::Pending, StreamState::Pending((n + 1) as u32))),
                }
            }
        },
    }
}

/// The stream as it starts, before any lookup.
pub fn stream_start() -> (r: StreamState)
    ensures
        r == StreamState::Pending(0),
{
    StreamState::Pending(0)
}

/// Whether a stream in state `s` looks the result up before its next event.
pub fn needs_lookup(s: StreamState) -> (r: bool)
    ensures
        r <==> (s matches StreamState::Pending(n) && n < MAX_POLLS),
{
    match s {
        StreamState::Pending(n) => n < MAX_POLLS,
        StreamState::Done => false,
    }
}

/// The next event of a stream in state `s`, where `found` is what the lookup
/// returned (ignored where no lookup is needed).
pub fn stream_step(s: StreamState, found: Option<JobResult>) -> (r: Option<(StreamEvent, StreamState)>)
    ensures
        r == stream_step_of(s, found),
{
    match s {
        StreamState::Done => None,
        StreamState::Pending(n) => {
            if n >= MAX_POLLS {
                Some((StreamEvent::Timeout, StreamState::Done))
            } else {
                match found {
                    Some(res) => Some((StreamEvent::Complete(res), StreamState::Done)),
                    None => Some((StreamEvent::Pending, StreamState::Pending(n + 1))),
                }
            }
        },
    }
}

impl StreamEvent {
    /// The event's name on the wire.
    pub fn name(&self) -> (r: &'static str)
        ensures
            self is Pending ==> r@ == "pending"@,
            self is Complete ==> r@ == "complete"@,
            self is Timeout ==> r@ == "timeout"@,
    {
        match self {
            StreamEvent::Pending => "pending",
            StreamEvent::Complete(_) => "complete",
            StreamEvent::Timeout => "timeout",
        }
    }

    /// Whether the stream waits one poll interval before emitting this event.
    pub fn follows_wait(&self) -> (r: bool)
        ensures
            r <==> self is Pending,
    {
        match self {
            StreamEvent::Pending => true,
            _ => false,
        }
    }
}

/// The data of a `pending` event.
pub fn pending_marker() -> (r: &'static str)
    ensures
        r@ == "running"@,
{
    "running"
}

/// The error carried by a `timeout` event.
pub fn timeout_error() -> (r: &'static str)
    ensures
        r@ == "Timed out waiting for results."@,
{
    "Timed out waiting for results."
}

/// The events a stream emits from state `s`, at most `fuel` of them, when
/// every lookup finds nothing.
pub open spec fn events_while_absent(s: StreamState, fuel: nat) -> Seq<StreamEvent>
    decreases fuel,
{
    if fuel == 0 {
        Seq::empty()
    } else {
        match stream_step_of(s, None) {
            None => Seq::empty(),
            Some((e, next)) => seq![e] + events_while_absent(next, (fuel - 1) as nat),
        }
    }
}

/// `n` pending events followed by one timeout.
pub open spec fn pending_then_timeout(n: nat) -> Seq<StreamEvent> {
    Seq::new(n, |i: int| StreamEvent::Pending).push(StreamEvent::Timeout)
}

proof fn lemma_absent_from(k: u32, fuel: nat)
    requires
        k <= MAX_POLLS,
        fuel >= (MAX_POLLS - k) + 2,
    ensures
        events_while_absent(StreamState::Pending(k), fuel) == pending_then_timeout((MAX_POLLS - k) as nat),
    decreases MAX_POLLS - k,
{
    let n = (MAX_POLLS - k) as nat;
    if k == MAX_POLLS {
        assert(events_while_absent(StreamState::Done, (fuel - 1) as nat) == Seq::<StreamEvent>::empty());
        assert(events_while_absent(StreamState::Pending(k), fuel) =~= pending_then_timeout(n));
    } else {
        lemma_absent_from((k + 1) as u32, (fuel - 1) as nat);
        let rest = events_while_absent(StreamState::Pending((k + 1) as u32), (fuel - 1) as nat);
        assert(events_while_absent(StreamState::Pending(k), fuel) == seq![StreamEvent::Pending] + rest);
        assert(seq![StreamEvent::Pending] + pending_then_timeout((n - 1) as nat) =~= pending_then_timeout(n));
    }
}

/// A stream whose lookups never find the result emits exactly one `pending`
/// event per poll, `MAX_POLLS` of them, then a single `timeout`, and then
/// closes: no further step emits anything, however many are allowed.
pub proof fn lemma_stream_without_result(fuel: nat)
    requires
        fuel >= MAX_POLLS + 2,
    ensures
        events_while_absent(StreamState::Pending(0), fuel) == pending_then_timeout(MAX_POLLS as nat),
        pending_then_timeout(MAX_POLLS as nat).len() == MAX_POLLS + 1,
        forall|i: int| 0 <= i < MAX_POLLS ==> pending_then_timeout(MAX_POLLS as nat)[i] is Pending,
        pending_then_timeout(MAX_POLLS as nat).last() is Timeout,
{
    lemma_absent_from(0, fuel);
}

} // verus!
