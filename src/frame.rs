//! Length-prefixed frames: a two-byte big-endian length followed by that many
//! payload bytes. Every call handles one complete frame; nothing is kept
//! between frames except the bytes a peer has sent and that are not yet used.
use vstd::prelude::*;

verus! {

/// The largest payload a frame can carry: its length must fit in 16 bits.
pub const MAX_FRAME_LEN: usize = 65535;

/// Why a frame could not be written or read.
#[derive(Debug, Clone, Copy, PartialEq, Eq, Structural)]
pub enum FrameError {
    /// The payload is longer than `MAX_FRAME_LEN` bytes.
    TooLong,
    /// The bytes end before the declared length is complete: the peer closed
    /// the connection in the middle of a frame.
    Truncated,
}

/// The two bytes that announce a payload of `n` bytes, high byte first.
pub open spec fn length_prefix(n: nat) -> Seq<u8> {
    seq![(n / 256) as u8, (n % 256) as u8]
}

/// The bytes on the wire for one payload.
pub open spec fn frame_of(p: Seq<u8>) -> Seq<u8> {
    length_prefix(p.len()) + p
}

/// The length that the first two bytes of `b` announce.
pub open spec fn declared_len(b: Seq<u8>) -> nat
    recommends
        b.len() >= 2,
{
    b[0] as nat * 256 + b[1] as nat
}

/// The frame at the front of `b`: its payload and the number of bytes it
/// takes up, or `None` when `b` does not yet hold a whole frame.
pub open spec fn parse_frame(b: Seq<u8>) -> Option<(Seq<u8>, nat)> {
    if b.len() < 2 {
        None
    } else if b.len() < 2 + declared_len(b) {
        None
    } else {
        Some((b.subrange(2, 2 + declared_len(b) as int), 2 + declared_len(b)))
    }
}

/// Encodes one payload as a frame; refuses a payload that the 16-bit length
/// cannot announce.
pub fn encode_frame(payload: &[u8]) -> (r: Result<Vec<u8>, FrameError>)
    ensures
        payload@.len() > MAX_FRAME_LEN ==> r == Err::<Vec<u8>, FrameError>(FrameError::TooLong),
        payload@.len() <= MAX_FRAME_LEN ==> r is Ok && r->Ok_0@ == frame_of(payload@),
{
    let n = payload.len();
    if n > MAX_FRAME_LEN {
        return Err(FrameError::TooLong);
    }
    let mut out: Vec<u8> = Vec::with_capacity(n + 2);
    out.push((n / 256) as u8);
    out.push((n % 256) as u8);
    assert(out@ =~= length_prefix(n as nat));
    let mut i: usize = 0;
    while i < n
        invariant
            i <= n,
            n == payload@.len(),
            out@ =~= length_prefix(n as nat) + payload@.subrange(0, i as int),
        decreases n - i,
    {
        out.push(payload[i]);
        i = i + 1;
        assert(out@ =~= length_prefix(n as nat) + payload@.subrange(0, i as int));
    }
    assert(payload@.subrange(0, n as int) =~= payload@);
    Ok(out)
}

/// Reads the frame at the front of `buf`: its payload and how many bytes of
/// `buf` it took up. Fails with `Truncated` when `buf` ends before the frame
/// does; a short payload is never returned.
pub fn decode_frame(buf: &[u8]) -> (r: Result<(Vec<u8>, usize), FrameError>)
    ensures
        parse_frame(buf@) is None ==> r == Err::<(Vec<u8>, usize), FrameError>(FrameError::Truncated),
        parse_frame(buf@) matches Some((p, n)) ==> r is Ok && r->Ok_0.0@ == p && r->Ok_0.1 == n,
{
    if buf.len() < 2 {
        return Err(FrameError::Truncated);
    }
    let len: usize = buf[0] as usize * 256 + buf[1] as usize;
    if buf.len() - 2 < len {
        return Err(FrameError::Truncated);
    }
    let mut out: Vec<u8> = Vec::with_capacity(len);
    let mut i: usize = 0;
    while i < len
        invariant
            i <= len,
            len == declared_len(buf@),
            2 + len <= buf@.len(),
            out@ =~= buf@.subrange(2, 2 + i),
        decreases len - i,
    {
        out.push(buf[2 + i]);
        i = i + 1;
        assert(out@ =~= buf@.subrange(2, 2 + i));
    }
    Ok((out, len + 2))
}

/// Collects the bytes a peer sends on a stream and hands out whole frames in
/// the order they arrived.
pub struct FrameReader {
    pending: Vec<u8>,
}

impl View for FrameReader {
    type V = Seq<u8>;

    /// The bytes received and not yet handed out as part of a frame.
    closed spec fn view(&self) -> Seq<u8> {
        self.pending@
    }
}

impl FrameReader {
    /// A reader that has received nothing.
    pub fn new() -> (r: FrameReader)
        ensures
            r@ == Seq::<u8>::empty(),
    {
        FrameReader { pending: Vec::new() }
    }

    /// Appends bytes received from the peer.
    pub fn push(&mut self, bytes: &[u8])
        ensures
            final(self)@ == old(self)@ + bytes@,
    {
        let mut i: usize = 0;
        while i < bytes.len()
            invariant
                i <= bytes@.len(),
                self@ =~= old(self)@ + bytes@.subrange(0, i as int),
            decreases bytes@.len() - i,
        {
            self.pending.push(bytes[i]);
            i = i + 1;
            assert(self@ =~= old(self)@ + bytes@.subrange(0, i as int));
        }
        assert(bytes@.subrange(0, bytes@.len() as int) =~= bytes@);
    }

    /// Takes the next whole frame's payload, if all of it has arrived.
    pub fn next_frame(&mut self) -> (r: Option<Vec<u8>>)
        ensures
            parse_frame(old(self)@) is None ==> r is None && final(self)@ == old(self)@,
            parse_frame(old(self)@) matches Some((p, n)) ==> r is Some && r->Some_0@ == p
                && final(self)@ == old(self)@.subrange(n as int, old(self)@.len() as int),
    {
        match decode_frame(self.pending.as_slice()) {
            Err(_) => None,
            Ok((payload, used)) => {
                let mut rest: Vec<u8> = Vec::new();
                let mut i: usize = used;
                while i < self.pending.len()
                    invariant
                        used <= i <= self.pending@.len(),
                        rest@ =~= self.pending@.subrange(used as int, i as int),
                    decreases self.pending@.len() - i,
                {
                    rest.push(self.pending[i]);
                    i = i + 1;
                    assert(rest@ =~= self.pending@.subrange(used as int, i as int));
                }
                self.pending = rest;
                Some(payload)
            },
        }
    }

    /// Called once the peer has closed the stream: succeeds only when no
    /// partial frame is left over.
    pub fn finish(&self) -> (r: Result<(), FrameError>)
        ensures
            r is Ok <==> self@.len() == 0,
            r is Err ==> r == Err::<(), FrameError>(FrameError::Truncated),
    {
        if self.pending.len() == 0 {
            Ok(())
        } else {
            Err(FrameError::Truncated)
        }
    }
}

/// Decoding the frame of any payload that fits, followed by anything at all,
/// gives back exactly that payload and consumes exactly the frame.
pub proof fn lemma_frame_round_trip(p: Seq<u8>, rest: Seq<u8>)
    requires
        p.len() <= MAX_FRAME_LEN,
    ensures
        parse_frame(frame_of(p) + rest) == Some((p, p.len() + 2)),
{
    let b = frame_of(p) + rest;
    assert(b[0] == (p.len() / 256) as u8);
    assert(b[1] == (p.len() % 256) as u8);
    assert(declared_len(b) == p.len());
    assert(b.subrange(2, 2 + p.len() as int) =~= p);
}

/// A frame cut short anywhere, before its last byte, never decodes: the
/// reader reports a truncation instead of a shorter payload.
pub proof fn lemma_cut_frame_is_truncated(p: Seq<u8>, k: nat)
    requires
        p.len() <= MAX_FRAME_LEN,
        k < p.len() + 2,
    ensures
        parse_frame(frame_of(p).take(k as int)) is None,
{
    let b = frame_of(p).take(k as int);
    if k >= 2 {
        assert(b[0] == (p.len() / 256) as u8);
        assert(b[1] == (p.len() % 256) as u8);
        assert(declared_len(b) == p.len());
    }
}

} // verus!
