//! Decisions of the ESP-NOW stations: when to broadcast, whom to answer,
//! which senders to register, and which bytes of a reception are payload.

use vstd::prelude::*;

verus! {

/// The ESP-NOW broadcast address.
pub const BROADCAST_ADDRESS: [u8; 6] = [0xff, 0xff, 0xff, 0xff, 0xff, 0xff];

/// Milliseconds between two broadcasts.
pub const BROADCAST_INTERVAL_MS: u64 = 5000;

/// Whether a broadcast is due at `now` milliseconds.
pub open spec fn is_due_at(next_send: u64, now: u64) -> bool {
    now >= next_send
}

/// Schedules the periodic broadcast of the demo station.
///
/// The station asks [`BroadcastTimer::is_due`] with one clock reading and,
/// when a broadcast is due, reads the clock again and passes that reading to
/// [`BroadcastTimer::reschedule`].
pub struct BroadcastTimer {
    pub next_send: u64,
}

impl BroadcastTimer {
    /// A timer started at `now`; the first broadcast is one interval later.
    pub fn new(now: u64) -> (r: Self)
        requires
            now + BROADCAST_INTERVAL_MS <= u64::MAX,
        ensures
            r.next_send == now + BROADCAST_INTERVAL_MS,
            r.next_send == now + 5000,
    {
        BroadcastTimer { next_send: now + BROADCAST_INTERVAL_MS }
    }

    /// Whether a broadcast is due at `now`.
    pub fn is_due(&self, now: u64) -> (r: bool)
        ensures
            r == is_due_at(self.next_send, now),
            r == (now >= self.next_send),
    {
        now >= self.next_send
    }

    /// Schedules the next broadcast one interval after `now`.
    pub fn reschedule(&mut self, now: u64)
        requires
            now + BROADCAST_INTERVAL_MS <= u64::MAX,
        ensures
            final(self).next_send == now + BROADCAST_INTERVAL_MS,
            final(self).next_send == now + 5000,
    {
        self.next_send = now + BROADCAST_INTERVAL_MS;
    }
}

/// A broadcast is due exactly from its scheduled time on: not before it,
/// and at every later time, however late.
pub proof fn lemma_due_from_schedule(next_send: u64, t1: u64, t2: u64)
    ensures
        is_due_at(next_send, t1) == (t1 >= next_send),
        is_due_at(next_send, t1) && t1 <= t2 ==> is_due_at(next_send, t2),
        is_due_at(next_send, next_send),
{
}

/// Broadcasts are at least one interval apart: after rescheduling at
/// `t1`, no time earlier than `t1` plus the interval is due.
pub proof fn lemma_broadcast_spacing(t1: u64, t2: u64)
    requires
        t1 + BROADCAST_INTERVAL_MS <= u64::MAX,
        t2 < t1 + BROADCAST_INTERVAL_MS,
    ensures
        !is_due_at((t1 + BROADCAST_INTERVAL_MS) as u64, t2),
{
}

/// What the demo station does with a received message.
#[derive(Debug, Clone, Copy, PartialEq, Eq, Structural)]
pub struct ReceiveAction {
    /// Register the sender as a peer first.
    pub add_peer: bool,
    /// Answer the sender.
    pub reply: bool,
}

/// The demo station answers broadcasts, registering unknown senders first,
/// and ignores messages addressed to it alone.
pub fn on_receive(dst: &[u8; 6], peer_known: bool) -> (r: ReceiveAction)
    ensures
        r.reply == (dst@ == BROADCAST_ADDRESS@),
        r.reply == (forall|j: int| 0 <= j < 6 ==> dst[j] == 0xffu8),
        r.add_peer == (r.reply && !peer_known),
{
    let mut i: usize = 0;
    let mut is_broadcast = true;
    while i < 6
        invariant
            i <= 6,
            is_broadcast == (forall|j: int| 0 <= j < i ==> dst@[j] == 0xff),
        decreases 6 - i,
    {
        if dst[i] != 0xff {
            is_broadcast = false;
        }
        i = i + 1;
    }
    assert(is_broadcast == (dst@ =~= BROADCAST_ADDRESS@));
    ReceiveAction { add_peer: is_broadcast && !peer_known, reply: is_broadcast }
}

/// A sensor message as the gateway takes it in.
pub struct SensorMessage {
    /// Register the sender as a peer first.
    pub add_peer: bool,
    /// The received bytes that carry the reading.
    pub payload: Vec<u8>,
}

/// The gateway registers every unknown sender and takes the first `len`
/// received bytes as the payload.
pub fn on_sensor_message(peer_known: bool, data: &[u8], len: u8) -> (r: SensorMessage)
    requires
        len <= data@.len(),
    ensures
        r.add_peer == !peer_known,
        r.payload@ == data@.take(len as int),
{
    let mut payload: Vec<u8> = Vec::new();
    let n = len as usize;
    let mut i: usize = 0;
    while i < n
        invariant
            n == len,
            n <= data@.len(),
            i <= n,
            payload@ == data@.take(i as int),
        decreases n - i,
    {
        payload.push(data[i]);
        i = i + 1;
        assert(data@.take(i as int) =~= data@.take(i - 1).push(data@[i - 1]));
    }
    SensorMessage { add_peer: !peer_known, payload }
}

} // verus!
