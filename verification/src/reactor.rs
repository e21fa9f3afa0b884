//! Decisions of the network reactor and of the devices and streams around
//! it: when a socket counts as readable or writable, how long to sleep,
//! what a poll result means, when an idle stream times out, and the queue
//! of frames between the network stack and the capture interface.
use std::collections::VecDeque;
use vstd::prelude::*;

verus! {

/// The states of a TCP socket.
#[derive(Debug, Clone, Copy, PartialEq, Eq, Structural)]
pub enum TcpState {
    Closed,
    Listen,
    SynSent,
    SynReceived,
    Established,
    FinWait1,
    FinWait2,
    CloseWait,
    Closing,
    LastAck,
    TimeWait,
}

/// Whether a socket in this state is on its way to being closed: every
/// state after `Established`.
pub open spec fn spec_is_going_to_close(s: TcpState) -> bool {
    match s {
        TcpState::Closed | TcpState::Listen | TcpState::SynSent | TcpState::SynReceived
        | TcpState::Established => false,
        _ => true,
    }
}

/// Whether a socket in this state is on its way to being closed.
pub fn is_going_to_close(s: TcpState) -> (r: bool)
    ensures
        r == spec_is_going_to_close(s),
{
    match s {
        TcpState::Closed | TcpState::Listen | TcpState::SynSent | TcpState::SynReceived
        | TcpState::Established => false,
        _ => true,
    }
}

/// What the reactor reads of a socket after a poll.
#[derive(Debug, Clone, Copy)]
pub enum SocketStatus {
    Tcp { can_recv: bool, can_send: bool, state: TcpState },
    Raw { can_recv: bool, can_send: bool },
    Other,
}

/// Whether the readers and the writers waiting on a socket are to be woken,
/// or `None` for sockets the reactor ignores.  A TCP socket that is closing
/// wakes both, so that they see the end of the stream.
pub open spec fn spec_readiness(s: SocketStatus) -> Option<(bool, bool)> {
    match s {
        SocketStatus::Tcp { can_recv, can_send, state } => Some(
            (
                can_recv || spec_is_going_to_close(state),
                can_send || spec_is_going_to_close(state),
            ),
        ),
        SocketStatus::Raw { can_recv, can_send } => Some((can_recv, can_send)),
        SocketStatus::Other => None,
    }
}

/// Whether the readers and the writers waiting on a socket are to be woken.
pub fn readiness(s: &SocketStatus) -> (r: Option<(bool, bool)>)
    ensures
        r == spec_readiness(*s),
{
    match s {
        SocketStatus::Tcp { can_recv, can_send, state } => {
            let closing = is_going_to_close(*state);
            Some((*can_recv || closing, *can_send || closing))
        },
        SocketStatus::Raw { can_recv, can_send } => Some((*can_recv, *can_send)),
        SocketStatus::Other => None,
    }
}

/// How long the reactor sleeps when the stack names no deadline, in
/// milliseconds.
pub const DEFAULT_TIMEOUT_MILLIS: u64 = 10000;

/// How long the reactor sleeps: the stack's deadline, or ten seconds.
pub fn wait_millis(poll_delay: Option<u64>) -> (r: u64)
    ensures
        r == match poll_delay {
            Some(d) => d,
            None => DEFAULT_TIMEOUT_MILLIS,
        },
{
    match poll_delay {
        Some(d) => d,
        None => DEFAULT_TIMEOUT_MILLIS,
    }
}

/// The result of one poll of the network stack.
#[derive(Debug, Clone, Copy, PartialEq, Eq, Structural)]
pub enum PollResult {
    /// Some socket's readiness may have changed.
    Changed,
    /// Nothing changed.
    Unchanged,
    /// A packet was dropped.
    Dropped,
    /// Any other error.
    Failed,
}

/// What the reactor does after a poll: wake the waiting tasks only when
/// something changed; a failure other than a dropped packet is logged.
pub fn after_poll(r: PollResult) -> (out: (bool, bool))
    ensures
        out.0 == (r == PollResult::Changed),
        out.1 == (r == PollResult::Failed),
{
    match r {
        PollResult::Changed => (true, false),
        PollResult::Unchanged | PollResult::Dropped => (false, false),
        PollResult::Failed => (false, true),
    }
}

/// What an idle timer decides when it fires.
#[derive(Debug, Clone, Copy, PartialEq, Eq, Structural)]
pub enum TimeoutAction {
    /// The stream was idle longer than the timeout.
    Expired,
    /// Sleep again for the given time.
    Rearm(u64),
}

/// When the idle timer of a stream fires after `elapsed` time without
/// traffic: past the timeout the stream has timed out, else the timer is
/// set for the time that is left.
pub fn timeout_check(elapsed: u64, timeout: u64) -> (r: TimeoutAction)
    ensures
        elapsed > timeout ==> r == TimeoutAction::Expired,
        elapsed <= timeout ==> r == TimeoutAction::Rearm((timeout - elapsed) as u64),
{
    if elapsed > timeout {
        TimeoutAction::Expired
    } else {
        TimeoutAction::Rearm(timeout - elapsed)
    }
}

/// How many frames may wait to be sent to the capture interface.
pub const MAX_QUEUE_SIZE: usize = 100;

/// The frames between the network stack and the capture interface: at most
/// one received frame waiting to be taken by the stack, and the frames the
/// stack produced, oldest first.
pub struct PacketQueue {
    temp: Option<Vec<u8>>,
    send_queue: VecDeque<Vec<u8>>,
}

/// The view of a waiting frame.
pub open spec fn temp_view(t: Option<Vec<u8>>) -> Option<Seq<u8>> {
    match t {
        Some(p) => Some(p@),
        None => None,
    }
}

impl PacketQueue {
    /// The received frame waiting for the stack.
    pub closed spec fn pending(&self) -> Option<Seq<u8>> {
        temp_view(self.temp)
    }

    /// The frames waiting to be sent, oldest first.
    pub closed spec fn outgoing(&self) -> Seq<Seq<u8>> {
        self.send_queue@.map_values(|p: Vec<u8>| p@)
    }

    /// Nothing waiting either way.
    pub fn new() -> (r: PacketQueue)
        ensures
            r.pending() is None,
            r.outgoing() == Seq::<Seq<u8>>::empty(),
    {
        let r = PacketQueue { temp: None, send_queue: VecDeque::new() };
        assert(r.outgoing() =~= Seq::<Seq<u8>>::empty());
        r
    }

    /// Whether the device must wait for a frame from the interface.
    pub fn need_wait(&self) -> (r: bool)
        ensures
            r == self.pending() is None,
    {
        self.temp.is_none()
    }

    /// Keeps what the interface delivered (`None` when its stream ended).
    pub fn set_received(&mut self, p: Option<Vec<u8>>)
        ensures
            final(self).pending() == temp_view(p),
            final(self).outgoing() == old(self).outgoing(),
    {
        self.temp = p;
    }

    /// Hands the waiting frame to the stack.
    pub fn get_next(&mut self) -> (r: Option<Vec<u8>>)
        ensures
            temp_view(r) == old(self).pending(),
            final(self).pending() is None,
            final(self).outgoing() == old(self).outgoing(),
    {
        self.temp.take()
    }

    /// Whether the stack may produce another frame: fewer than 100 wait.
    pub fn can_transmit(&self) -> (r: bool)
        ensures
            r == (self.outgoing().len() < MAX_QUEUE_SIZE),
    {
        self.send_queue.len() < MAX_QUEUE_SIZE
    }

    /// Queues a frame the stack produced.
    pub fn push_sent(&mut self, frame: Vec<u8>)
        ensures
            final(self).outgoing() == old(self).outgoing().push(frame@),
            final(self).pending() == old(self).pending(),
    {
        self.send_queue.push_back(frame);
        assert(self.outgoing() =~= old(self).outgoing().push(frame@));
    }

    /// Takes every queued frame, oldest first, leaving the queue empty.
    pub fn drain(&mut self) -> (r: Vec<Vec<u8>>)
        ensures
            r@.map_values(|p: Vec<u8>| p@) == old(self).outgoing(),
            final(self).outgoing() == Seq::<Seq<u8>>::empty(),
            final(self).pending() == old(self).pending(),
    {
        let mut out: Vec<Vec<u8>> = Vec::new();
        let ghost all = self.outgoing();
        while self.send_queue.len() > 0
            invariant
                out@.map_values(|p: Vec<u8>| p@) + self.outgoing() == all,
                self.pending() == old(self).pending(),
            decreases self.send_queue@.len(),
        {
            let ghost before = self.outgoing();
            match self.send_queue.pop_front() {
                Some(p) => {
                    out.push(p);
                },
                None => {},
            }
            assert(out@.map_values(|p: Vec<u8>| p@) + self.outgoing() =~= all) by {
                assert(before =~= seq![before[0]] + self.outgoing());
            }
        }
        assert(self.outgoing() =~= Seq::<Seq<u8>>::empty());
        assert(out@.map_values(|p: Vec<u8>| p@) =~= all);
        out
    }
}

} // verus!
