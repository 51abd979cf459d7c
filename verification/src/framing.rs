//! Length-prefixed frames on the UART link between the ESP32 gateway and
//! the Raspberry Pi: one byte holding the payload length, then the payload.

use vstd::prelude::*;

verus! {

/// Largest payload a frame can carry.
pub const MAX_PAYLOAD: usize = 255;

/// The frame that carries `payload`.
pub open spec fn frame(payload: Seq<u8>) -> Seq<u8> {
    seq![payload.len() as u8] + payload
}

/// Decoder state: the announced length while a frame is being collected
/// (`None` between frames), and the payload bytes collected so far.
pub type DecoderView = (Option<u8>, Seq<u8>);

/// The decoder between frames.
pub open spec fn idle() -> DecoderView {
    (None, Seq::empty())
}

/// Whether a decoder state can occur: nothing is held between frames, and a
/// frame being collected announced a positive length not yet reached.
pub open spec fn valid_state(state: DecoderView) -> bool {
    match state.0 {
        None => state.1.len() == 0,
        Some(n) => 0 < n && state.1.len() < n,
    }
}

/// One byte of input: the next state and the frame it completes, if any.
pub open spec fn step(state: DecoderView, byte: u8) -> (DecoderView, Option<Seq<u8>>) {
    match state.0 {
        None => if byte == 0 {
            (idle(), Some(Seq::empty()))
        } else {
            ((Some(byte), Seq::empty()), None)
        },
        Some(n) => {
            let got = state.1.push(byte);
            if got.len() == n {
                (idle(), Some(got))
            } else {
                ((Some(n), got), None)
            }
        },
    }
}

/// The state after `bytes` and the frames they complete, in order.
pub open spec fn feed(state: DecoderView, bytes: Seq<u8>) -> (DecoderView, Seq<Seq<u8>>)
    decreases bytes.len(),
{
    if bytes.len() == 0 {
        (state, Seq::empty())
    } else {
        let (mid, frames) = feed(state, bytes.drop_last());
        let (last, out) = step(mid, bytes.last());
        match out {
            Some(f) => (last, frames.push(f)),
            None => (last, frames),
        }
    }
}

/// The payload viewed as bytes, when there is one.
pub open spec fn payload_view(r: Option<Vec<u8>>) -> Option<Seq<u8>> {
    match r {
        Some(v) => Some(v@),
        None => None,
    }
}

/// Builds the frame that carries `payload`.
pub fn encode_frame(payload: &[u8]) -> (r: Vec<u8>)
    requires
        payload@.len() <= MAX_PAYLOAD,
    ensures
        r@ == frame(payload@),
        r@.len() == payload@.len() + 1,
        r@[0] == payload@.len(),
        r@.skip(1) == payload@,
{
    let mut out: Vec<u8> = Vec::new();
    out.push(payload.len() as u8);
    let mut i: usize = 0;
    while i < payload.len()
        invariant
            i <= payload@.len(),
            payload@.len() <= MAX_PAYLOAD,
            out@ == seq![payload@.len() as u8] + payload@.take(i as int),
        decreases payload@.len() - i,
    {
        out.push(payload[i]);
        i = i + 1;
        assert(payload@.take(i as int) =~= payload@.take(i - 1).push(payload@[i - 1]));
    }
    assert(payload@.take(i as int) =~= payload@);
    assert(out@.skip(1) =~= payload@);
    out
}

/// Splits a byte stream back into the payloads of its frames.
pub struct FrameDecoder {
    expected: Option<u8>,
    buf: Vec<u8>,
}

impl View for FrameDecoder {
    type V = DecoderView;

    closed spec fn view(&self) -> DecoderView {
        (self.expected, self.buf@)
    }
}

impl FrameDecoder {
    /// A decoder between frames.
    pub fn new() -> (r: Self)
        ensures
            r@ == idle(),
            r@ == (None::<u8>, Seq::<u8>::empty()),
    {
        FrameDecoder { expected: None, buf: Vec::new() }
    }

    /// Whether a frame is partly received.
    pub fn is_collecting(&self) -> (r: bool)
        ensures
            r == self@.0 is Some,
    {
        self.expected.is_some()
    }

    /// Takes the next byte of the stream; returns the payload of the frame it completes.
    pub fn push(&mut self, byte: u8) -> (r: Option<Vec<u8>>)
        requires
            valid_state(old(self)@),
        ensures
            valid_state(final(self)@),
            (final(self)@, payload_view(r)) == step(old(self)@, byte),
    {
        match self.expected {
            None => {
                if byte == 0 {
                    Some(Vec::new())
                } else {
                    self.expected = Some(byte);
                    None
                }
            },
            Some(n) => {
                self.buf.push(byte);
                if self.buf.len() == n as usize {
                    let mut out: Vec<u8> = Vec::new();
                    core::mem::swap(&mut out, &mut self.buf);
                    self.expected = None;
                    Some(out)
                } else {
                    None
                }
            },
        }
    }
}

/// Feeding `a` then `b` is feeding `a + b`.
pub proof fn lemma_feed_append(state: DecoderView, a: Seq<u8>, b: Seq<u8>)
    ensures
        feed(state, a + b) == ({
            let (mid, first) = feed(state, a);
            let (last, second) = feed(mid, b);
            (last, first + second)
        }),
    decreases b.len(),
{
    let (mid, first) = feed(state, a);
    if b.len() == 0 {
        assert(a + b =~= a);
        assert(first + Seq::<Seq<u8>>::empty() =~= first);
    } else {
        lemma_feed_append(state, a, b.drop_last());
        assert((a + b).drop_last() =~= a + b.drop_last());
        assert((a + b).last() == b.last());
        let (m2, second) = feed(mid, b.drop_last());
        let (last, out) = step(m2, b.last());
        match out {
            Some(f) => {
                assert((first + second).push(f) =~= first + second.push(f));
            },
            None => {},
        }
    }
}

/// While a frame of payload `p` is arriving, the decoder collects its bytes
/// and completes nothing.
proof fn lemma_feed_partial(p: Seq<u8>, k: int)
    requires
        0 < p.len() <= MAX_PAYLOAD,
        0 <= k < p.len(),
    ensures
        feed(idle(), frame(p).take(k + 1)) == ((Some(p.len() as u8), p.take(k)), Seq::<Seq<u8>>::empty()),
    decreases k,
{
    let f = frame(p);
    if k == 0 {
        assert(f.take(1).drop_last() =~= Seq::<u8>::empty());
        assert(feed(idle(), Seq::<u8>::empty()) == (idle(), Seq::<Seq<u8>>::empty()));
        assert(f.take(1).last() == p.len() as u8);
        assert(p.take(0) =~= Seq::<u8>::empty());
    } else {
        lemma_feed_partial(p, k - 1);
        assert(f.take(k + 1).drop_last() =~= f.take(k));
        assert(f.take(k + 1).last() == p[k - 1]);
        assert(p.take(k - 1).push(p[k - 1]) =~= p.take(k));
    }
}

/// A frame decodes to the payload it carries, leaving the decoder between frames.
pub proof fn lemma_frame_roundtrip(p: Seq<u8>)
    requires
        p.len() <= MAX_PAYLOAD,
    ensures
        feed(idle(), frame(p)) == (idle(), seq![p]),
{
    let f = frame(p);
    if p.len() == 0 {
        assert(f.drop_last() =~= Seq::<u8>::empty());
        assert(feed(idle(), Seq::<u8>::empty()) == (idle(), Seq::<Seq<u8>>::empty()));
        assert(p =~= Seq::<u8>::empty());
        assert(Seq::<Seq<u8>>::empty().push(Seq::<u8>::empty()) =~= seq![p]);
    } else {
        lemma_feed_partial(p, p.len() - 1);
        assert(f.drop_last() =~= f.take(p.len() as int));
        assert(f.last() == p[p.len() - 1]);
        assert(p.take(p.len() - 1).push(p[p.len() - 1]) =~= p);
        assert(Seq::<Seq<u8>>::empty().push(p) =~= seq![p]);
    }
}

/// A stream of frames decodes to their payloads, one after another.
pub proof fn lemma_stream_roundtrip(p: Seq<u8>, rest: Seq<u8>)
    requires
        p.len() <= MAX_PAYLOAD,
    ensures
        feed(idle(), frame(p) + rest) == ({
            let (last, frames) = feed(idle(), rest);
            (last, seq![p] + frames)
        }),
{
    lemma_feed_append(idle(), frame(p), rest);
    lemma_frame_roundtrip(p);
}

/// The bytes of a frame, a length byte followed by that many payload
/// bytes, fed to a decoder between frames yield exactly that payload, once,
/// and leave the decoder between frames holding nothing; no proper prefix
/// of them yields anything.
pub proof fn lemma_length_prefixed_roundtrip(p: Seq<u8>, k: int)
    requires
        p.len() <= 255,
        0 <= k <= p.len(),
    ensures
        feed((None, Seq::empty()), seq![p.len() as u8] + p) == ((None::<u8>, Seq::<u8>::empty()), seq![p]),
        k < p.len() ==> feed((None, Seq::empty()), (seq![p.len() as u8] + p).take(k + 1)).1.len() == 0,
{
    lemma_frame_roundtrip(p);
    if k < p.len() {
        lemma_feed_partial(p, k);
    }
}

} // verus!
