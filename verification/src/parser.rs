//! The stateful incremental stream parser.
//!
//! The parser buffers arbitrary byte chunks and extracts one validated
//! frame at a time from the buffer head.  Every validation failure drops
//! exactly one byte and retries, so a valid frame beginning one byte
//! later is never missed, and partial delivery only postpones a frame.

use crate::checksum::{compute_lrc, crc16_checksum, crc16_of, spec_lrc};
use crate::packet::{kind_of, payload_decodable, spec_byte_length, AnppPacket, PacketKind};
use crate::protocol::{frame_lrc_ok, spec_frame};
use crate::wire::read_u16;
use vstd::bytes::{
    lemma_auto_spec_u16_to_from_le_bytes, spec_u16_from_le_bytes, spec_u16_to_le_bytes,
};
use vstd::prelude::*;
use vstd::slice::{slice_subrange, slice_to_vec};

verus! {

/// The buffer holds less than a header, or less than the declared frame:
/// the parser waits for more bytes, discarding nothing.
pub open spec fn head_needs_more(b: Seq<u8>) -> bool {
    b.len() < 5 || b.len() < 5 + b[2]
}

/// The payload bytes of the frame at the buffer head.
pub open spec fn head_payload(b: Seq<u8>) -> Seq<u8>
    recommends
        !head_needs_more(b),
{
    b.subrange(5, 5 + b[2])
}

/// The checksum claimed by the header at the buffer head.
pub open spec fn head_crc(b: Seq<u8>) -> u16
    recommends
        b.len() >= 5,
{
    spec_u16_from_le_bytes(b.subrange(3, 5))
}

/// A complete, fully validated frame sits at the buffer head: the
/// header LRC matches, and for a registered kind the declared length
/// matches any statically known length, the payload CRC16 matches, and
/// the payload decodes.  An unregistered identifier is accepted on the
/// header LRC alone.
pub open spec fn head_good(b: Seq<u8>) -> bool {
    &&& !head_needs_more(b)
    &&& frame_lrc_ok(b)
    &&& (kind_of(b[1]) is Unsupported || {
        &&& (spec_byte_length(kind_of(b[1])) matches Some(l) ==> b[2] == l)
        &&& crc16_of(head_payload(b)) == head_crc(b)
        &&& payload_decodable(b[1], head_payload(b))
    })
}

/// The frame at the buffer head is complete but fails validation: the
/// parser drops one byte and retries.
pub open spec fn head_bad(b: Seq<u8>) -> bool {
    !head_needs_more(b) && !head_good(b)
}

/// The buffer after byte-at-a-time resynchronisation: bytes are dropped
/// from the front while the head is a complete but invalid frame, and
/// scanning stops at the first position that is a valid frame or that
/// needs more data.
pub open spec fn resync(b: Seq<u8>) -> Seq<u8>
    decreases b.len(),
{
    if head_needs_more(b) || head_good(b) {
        b
    } else {
        resync(b.subrange(1, b.len() as int))
    }
}

/// The packet that a good buffer head decodes into: well formed, of the
/// registered kind, with exactly the head payload as its encoding.
pub open spec fn head_packet_matches(p: AnppPacket, b: Seq<u8>) -> bool {
    &&& p.wf()
    &&& p.spec_kind() == kind_of(b[1])
    &&& p.spec_payload() == head_payload(b)
}

/// The legacy header check: a plain XOR of the id, the length and the
/// two checksum bytes.  It is kept for reference only; the canonical
/// frame layer and this parser use the arithmetic LRC of
/// `checksum::spec_lrc`.  The two formulas are not equivalent.
pub fn calculate_lrc(packet_id: u8, length: u8, crc16: u16) -> (r: u8)
    ensures
        r == packet_id ^ length ^ (crc16 & 0xFF) as u8 ^ ((crc16 >> 8) & 0xFF) as u8,
{
    let crc_low: u8 = (crc16 & 0xFF) as u8;
    let crc_high: u8 = ((crc16 >> 8) & 0xFF) as u8;
    packet_id ^ length ^ crc_low ^ crc_high
}

/// The incremental stream parser: an append-at-back, drain-at-front
/// byte buffer owned by one parser instance.
#[derive(Debug)]
pub struct AnppParser {
    buf: Vec<u8>,
}

impl View for AnppParser {
    type V = Seq<u8>;

    closed spec fn view(&self) -> Seq<u8> {
        self.buf@
    }
}

impl AnppParser {
    /// Creates a parser with an empty buffer.
    pub fn new() -> (r: AnppParser)
        ensures
            r@ == Seq::<u8>::empty(),
    {
        AnppParser { buf: Vec::new() }
    }

    /// The number of buffered bytes.
    pub fn buffer_len(&self) -> (r: usize)
        ensures
            r == self@.len(),
    {
        self.buf.len()
    }

    /// Discards everything buffered.
    pub fn clear(&mut self)
        ensures
            final(self)@ == Seq::<u8>::empty(),
    {
        self.buf.clear();
    }

    /// Removes one byte from the buffer front.
    fn drop_front(&mut self)
        requires
            old(self)@.len() >= 1,
        ensures
            final(self)@ == old(self)@.subrange(1, old(self)@.len() as int),
    {
        self.buf.remove(0);
        proof {
            assert(old(self).buf@.remove(0) =~= old(self)@.subrange(1, old(self)@.len() as int));
        }
    }

    /// Removes the first `k` bytes from the buffer front.
    fn drain_front(&mut self, k: usize)
        requires
            k <= old(self)@.len(),
        ensures
            final(self)@ == old(self)@.subrange(k as int, old(self)@.len() as int),
    {
        let len: usize = self.buf.len();
        let rest: Vec<u8> = slice_to_vec(slice_subrange(self.buf.as_slice(), k, len));
        self.buf = rest;
    }

    /// Appends `input` to the buffer, then repeatedly examines the
    /// buffer head: an incomplete frame returns `None` with the buffer
    /// preserved; a complete but invalid frame drops one byte and
    /// retries; a valid frame is drained and returned decoded.  Each
    /// call returns at most one packet; call again with an empty slice
    /// to drain further buffered frames.
    pub fn consume(&mut self, input: &[u8]) -> (r: Option<AnppPacket>)
        ensures
            ({
                let c = resync(old(self)@ + input@);
                if head_good(c) {
                    &&& final(self)@ == c.subrange(5 + c[2], c.len() as int)
                    &&& (r matches Some(p) && head_packet_matches(p, c))
                } else {
                    &&& final(self)@ == c
                    &&& r is None
                }
            }),
    {
        let mut i: usize = 0;
        let ghost orig: Seq<u8> = old(self)@ + input@;
        #[verifier::loop_isolation(false)]
        while i < input.len()
            invariant
                i <= input@.len(),
                self.buf@ == old(self)@ + input@.take(i as int),
            decreases input@.len() - i,
        {
            self.buf.push(input[i]);
            proof {
                assert(old(self)@ + input@.take(i + 1) =~= (old(self)@ + input@.take(
                    i as int,
                )).push(input@[i as int]));
            }
            i += 1;
        }
        proof {
            assert(old(self)@ + input@.take(input@.len() as int) =~= orig);
        }
        #[verifier::loop_isolation(false)]
        loop
            invariant
                resync(self.buf@) == resync(orig),
            decreases self.buf@.len(),
        {
            let blen: usize = self.buf.len();
            if blen < 5 {
                return None;
            }
            let declared: usize = self.buf[2] as usize;
            if blen < 5 + declared {
                return None;
            }
            let crc: u16 = read_u16(self.buf.as_slice(), 3);
            let lrc: u8 = compute_lrc(self.buf[1], self.buf[2], crc);
            if lrc != self.buf[0] {
                proof {
                    assert(head_bad(self.buf@));
                }
                self.drop_front();
                continue ;
            }
            let id: u8 = self.buf[1];
            let kind: PacketKind = PacketKind::from_u8(id);
            let payload: Vec<u8> = slice_to_vec(
                slice_subrange(self.buf.as_slice(), 5, 5 + declared),
            );
            if kind == PacketKind::Unsupported {
                proof {
                    assert(head_good(self.buf@));
                }
                let p = AnppPacket::Unsupported(payload);
                proof {
                    assert(head_packet_matches(p, self.buf@));
                }
                self.drain_front(5 + declared);
                return Some(p);
            }
            let fixed: Option<usize> = kind.byte_length();
            if let Some(expected) = fixed {
                if declared != expected {
                    proof {
                        assert(head_bad(self.buf@));
                    }
                    self.drop_front();
                    continue ;
                }
            }
            let calc: u16 = crc16_checksum(payload.as_slice());
            if calc != crc {
                proof {
                    assert(head_bad(self.buf@));
                }
                self.drop_front();
                continue ;
            }
            match AnppPacket::from_bytes(id, payload.as_slice()) {
                Ok(p) => {
                    proof {
                        assert(head_good(self.buf@));
                        assert(head_packet_matches(p, self.buf@));
                    }
                    self.drain_front(5 + declared);
                    return Some(p);
                },
                Err(_) => {
                    proof {
                        assert(head_bad(self.buf@));
                    }
                    self.drop_front();
                    continue ;
                },
            }
        }
    }
}

impl Default for AnppParser {
    fn default() -> (r: AnppParser)
        ensures
            r@ == Seq::<u8>::empty(),
    {
        AnppParser::new()
    }
}

/// Once a complete frame sits at the head, later bytes cannot change its
/// validation: every check reads only the first `5 + b[2]` bytes.
pub proof fn lemma_head_stable(b: Seq<u8>, ext: Seq<u8>)
    requires
        !head_needs_more(b),
    ensures
        !head_needs_more(b + ext),
        head_good(b + ext) == head_good(b),
        head_payload(b + ext) == head_payload(b),
        (b + ext)[0] == b[0] && (b + ext)[1] == b[1] && (b + ext)[2] == b[2],
{
    assert((b + ext)[0] == b[0]);
    assert((b + ext)[1] == b[1]);
    assert((b + ext)[2] == b[2]);
    assert((b + ext).subrange(3, 5) =~= b.subrange(3, 5));
    assert((b + ext).subrange(5, 5 + b[2]) =~= b.subrange(5, 5 + b[2]));
}

/// Partial delivery is harmless: when a consume call has found no
/// complete frame, feeding further bytes continues exactly where one
/// larger chunk would have led.  Bytes already dropped stay dropped,
/// and no byte is dropped early.
pub proof fn lemma_resync_extend(b: Seq<u8>, ext: Seq<u8>)
    requires
        head_needs_more(resync(b)),
    ensures
        resync(b + ext) == resync(resync(b) + ext),
    decreases b.len(),
{
    if head_needs_more(b) {
        assert(resync(b) == b);
    } else if head_good(b) {
        assert(resync(b) == b);
        assert(false);
    } else {
        lemma_head_stable(b, ext);
        let t = b.subrange(1, b.len() as int);
        assert((b + ext).subrange(1, (b + ext).len() as int) =~= t + ext);
        assert(resync(b + ext) == resync(t + ext));
        assert(resync(b) == resync(t));
        lemma_resync_extend(t, ext);
    }
}

/// A frame built by the frame layer is accepted at the buffer head,
/// whatever follows it: its LRC and CRC check out by construction, and
/// its payload is exactly what was framed.
pub proof fn lemma_frame_head_good(id: u8, payload: Seq<u8>, rest: Seq<u8>)
    requires
        payload.len() <= 255,
        kind_of(id) is Unsupported || payload_decodable(id, payload),
    ensures
        ({
            let f = spec_frame(id, payload) + rest;
            &&& head_good(f)
            &&& f[1] == id
            &&& f[2] == payload.len()
            &&& head_payload(f) == payload
            &&& f.len() == 5 + payload.len() + rest.len()
            &&& resync(f) == f
            &&& f.subrange(5 + payload.len() as int, f.len() as int) == rest
        }),
{
    lemma_auto_spec_u16_to_from_le_bytes();
    let crc = crc16_of(payload);
    assert(spec_u16_to_le_bytes(crc).len() == 2);
    let f = spec_frame(id, payload) + rest;
    assert(f[0] == spec_lrc(id, payload.len() as u8, crc));
    assert(f[1] == id);
    assert(f[2] == payload.len() as u8);
    assert(f.subrange(3, 5) =~= spec_u16_to_le_bytes(crc));
    assert(spec_u16_from_le_bytes(spec_u16_to_le_bytes(crc)) == crc);
    assert(f.subrange(5, 5 + f[2]) =~= payload);
    assert(!head_needs_more(f));
    assert(frame_lrc_ok(f));
    lemma_decodable_fixed_length(id, payload);
    assert(head_good(f));
    assert(f.subrange(5 + payload.len() as int, f.len() as int) =~= rest);
}

/// A payload that decodes for a registered kind has that kind's
/// statically known length, where one exists.
pub proof fn lemma_decodable_fixed_length(id: u8, payload: Seq<u8>)
    requires
        kind_of(id) is Unsupported || payload_decodable(id, payload),
    ensures
        spec_byte_length(kind_of(id)) matches Some(l) ==> payload.len() == l,
{
}

/// A well-formed frame whose identifier is outside the registry is
/// accepted and carries its payload through unchanged: together with
/// `AnppParser::consume`, such a frame yields `Unsupported` with the
/// raw payload, not an error, and parsing continues after it.
pub proof fn lemma_unsupported_frame_accepted(id: u8, payload: Seq<u8>, rest: Seq<u8>)
    requires
        payload.len() <= 255,
        kind_of(id) is Unsupported,
    ensures
        ({
            let f = spec_frame(id, payload) + rest;
            &&& head_good(f)
            &&& kind_of(f[1]) is Unsupported
            &&& head_payload(f) == payload
            &&& f.subrange(5 + payload.len() as int, f.len() as int) == rest
        }),
{
    lemma_frame_head_good(id, payload, rest);
}

/// Resynchronisation walks over a stretch of bytes whose every suffix
/// position fails validation, and stops exactly at the tail.
pub proof fn lemma_resync_skips_bad_prefix(g: Seq<u8>, t: Seq<u8>)
    requires
        head_good(t) || head_needs_more(t),
        forall|i: int|
            0 <= i < g.len() ==> head_bad(#[trigger] (g + t).subrange(i, (g + t).len() as int)),
    ensures
        resync(g + t) == t,
    decreases g.len(),
{
    if g.len() == 0 {
        assert(g + t =~= t);
    } else {
        assert((g + t).subrange(0, (g + t).len() as int) =~= g + t);
        assert(head_bad(g + t));
        let g2 = g.subrange(1, g.len() as int);
        assert((g + t).subrange(1, (g + t).len() as int) =~= g2 + t);
        assert(resync(g + t) == resync(g2 + t));
        assert forall|i: int|
            0 <= i < g2.len() implies head_bad(
            #[trigger] (g2 + t).subrange(i, (g2 + t).len() as int),
        ) by {
            assert((g2 + t).subrange(i, (g2 + t).len() as int) =~= (g + t).subrange(
                i + 1,
                (g + t).len() as int,
            ));
            assert(head_bad((g + t).subrange(i + 1, (g + t).len() as int)));
        }
        lemma_resync_skips_bad_prefix(g2, t);
    }
}

/// Corruption resync: a valid frame, then garbage at whose every suffix
/// position validation fails, then a second valid frame, are consumed
/// as exactly the first packet and then the second, in order.  Together
/// with `AnppParser::consume` and `lemma_resync_extend` this holds for
/// any chunking of the byte sequence.
pub proof fn lemma_corruption_resync(
    id1: u8,
    payload1: Seq<u8>,
    garbage: Seq<u8>,
    id2: u8,
    payload2: Seq<u8>,
)
    requires
        payload1.len() <= 255,
        payload2.len() <= 255,
        kind_of(id1) is Unsupported || payload_decodable(id1, payload1),
        kind_of(id2) is Unsupported || payload_decodable(id2, payload2),
        forall|i: int|
            0 <= i < garbage.len() ==> head_bad(
                #[trigger] (garbage + spec_frame(id2, payload2)).subrange(
                    i,
                    (garbage + spec_frame(id2, payload2)).len() as int,
                ),
            ),
    ensures
        ({
            let f2 = spec_frame(id2, payload2);
            let s = spec_frame(id1, payload1) + (garbage + f2);
            &&& head_good(s)
            &&& resync(s) == s
            &&& s[1] == id1 && head_payload(s) == payload1
            &&& s.subrange(5 + payload1.len() as int, s.len() as int) == garbage + f2
            &&& resync(garbage + f2) == f2
            &&& head_good(f2)
            &&& f2[1] == id2 && head_payload(f2) == payload2
            &&& f2.subrange(5 + payload2.len() as int, f2.len() as int) == Seq::<u8>::empty()
        }),
{
    let f2 = spec_frame(id2, payload2);
    lemma_frame_head_good(id1, payload1, garbage + f2);
    lemma_frame_head_good(id2, payload2, Seq::<u8>::empty());
    assert(f2 + Seq::<u8>::empty() =~= f2);
    assert(head_good(f2));
    assert(head_payload(f2 + Seq::<u8>::empty()) == head_payload(f2));
    lemma_resync_skips_bad_prefix(garbage, f2);
    assert(f2.subrange(5 + payload2.len() as int, f2.len() as int) =~= Seq::<u8>::empty());
}


/// All the bytes of a sequence of chunks, in order.
pub open spec fn spec_chunks_bytes(chunks: Seq<Seq<u8>>) -> Seq<u8>
    decreases chunks.len(),
{
    if chunks.len() == 0 {
        Seq::empty()
    } else {
        spec_chunks_bytes(chunks.drop_last()) + chunks.last()
    }
}

/// The buffer of a fresh parser after the chunks were fed one call at
/// a time and every call left its resync point in place: each call
/// replaces the buffer with `resync` of the old buffer plus its input,
/// exactly as `consume` does.
pub open spec fn spec_feed(chunks: Seq<Seq<u8>>) -> Seq<u8>
    decreases chunks.len(),
{
    if chunks.len() == 0 {
        Seq::empty()
    } else {
        resync(spec_feed(chunks.drop_last()) + chunks.last())
    }
}

/// Resynchronisation stops only where the head is a valid frame or
/// needs more bytes, and doing it twice changes nothing.
pub proof fn lemma_resync_fixpoint(b: Seq<u8>)
    ensures
        head_needs_more(resync(b)) || head_good(resync(b)),
        resync(resync(b)) == resync(b),
    decreases b.len(),
{
    if !(head_needs_more(b) || head_good(b)) {
        lemma_resync_fixpoint(b.subrange(1, b.len() as int));
    }
}

/// Partial delivery over any number of chunks: as long as no call has
/// yet found a valid frame, a parser fed chunk by chunk holds exactly
/// the buffer that one call with all the bytes would leave.  With
/// `consume`'s contract, the call that completes a frame therefore
/// returns the same packet whatever the chunking was.
pub proof fn lemma_chunked_feed(chunks: Seq<Seq<u8>>)
    requires
        forall|i: int| 0 < i < chunks.len() ==> !head_good(#[trigger] spec_feed(chunks.take(i))),
    ensures
        spec_feed(chunks) == resync(spec_chunks_bytes(chunks)),
    decreases chunks.len(),
{
    if chunks.len() == 0 {
        assert(resync(Seq::<u8>::empty()) == Seq::<u8>::empty());
    } else {
        let pre = chunks.drop_last();
        let last = chunks.last();
        assert forall|i: int| 0 < i < pre.len() implies !head_good(
            #[trigger] spec_feed(pre.take(i)),
        ) by {
            assert(pre.take(i) =~= chunks.take(i));
            assert(!head_good(spec_feed(chunks.take(i))));
        }
        lemma_chunked_feed(pre);
        if pre.len() == 0 {
            assert(spec_feed(pre) == Seq::<u8>::empty());
            assert(head_needs_more(spec_feed(pre)));
        } else {
            assert(chunks.take(chunks.len() - 1) =~= pre);
            assert(!head_good(spec_feed(pre)));
        }
        lemma_resync_fixpoint(spec_chunks_bytes(pre));
        assert(head_needs_more(resync(spec_chunks_bytes(pre))));
        lemma_resync_extend(spec_chunks_bytes(pre), last);
        assert(spec_feed(chunks) == resync(spec_feed(pre) + last));
        assert(spec_chunks_bytes(chunks) == spec_chunks_bytes(pre) + last);
    }
}

} // verus!
