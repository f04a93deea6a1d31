//! Frame codec: builds an outgoing frame around a command payload and
//! computes the 16-bit wrapping checksum that binds length and payload.
//!
//! A frame on the wire is `[0xAB][0xCD][len: u16 LE][payload: len-2 bytes]
//! [checksum: u16 LE]`, where `len` covers the payload plus the two checksum
//! bytes, and the checksum is a wrapping 16-bit sum seeded with
//! `2 + low(payload len) + high(payload len)` plus every payload byte.

use vstd::prelude::*;

verus! {

/// First byte of the frame marker.
pub const MARKER0: u8 = 0xAB;

/// Second byte of the frame marker.
pub const MARKER1: u8 = 0xCD;

/// Sum of the byte values of `s`, as an unbounded integer.
pub open spec fn byte_sum(s: Seq<u8>) -> int
    decreases s.len(),
{
    if s.len() == 0 {
        0
    } else {
        byte_sum(s.drop_last()) + s.last()
    }
}

/// The frame checksum of a payload: a 16-bit wrapping sum seeded with
/// `2 + low(payload len) + high(payload len)`, plus every payload byte.
pub open spec fn checksum_spec(payload: Seq<u8>) -> u16 {
    ((2 + payload.len() as int % 256 + payload.len() as int / 256 % 256 + byte_sum(payload))
        % 0x10000) as u16
}

/// The wire frame around `payload` carrying `checksum` in its trailer,
/// whether or not that checksum is the correct one: marker, little-endian
/// length (payload plus the two checksum bytes), payload, little-endian
/// checksum.
pub open spec fn frame_bytes_with(payload: Seq<u8>, checksum: u16) -> Seq<u8> {
    seq![
        MARKER0,
        MARKER1,
        ((payload.len() + 2) % 256) as u8,
        ((payload.len() + 2) / 256 % 256) as u8,
    ] + payload + seq![(checksum % 256) as u8, (checksum as int / 256) as u8]
}

/// The complete, checksum-correct wire frame around `payload`.
pub open spec fn frame_bytes(payload: Seq<u8>) -> Seq<u8> {
    frame_bytes_with(payload, checksum_spec(payload))
}

pub proof fn lemma_byte_sum_take_step(s: Seq<u8>, i: int)
    requires
        0 <= i < s.len(),
    ensures
        byte_sum(s.take(i + 1)) == byte_sum(s.take(i)) + s[i],
{
    assert(s.take(i + 1).drop_last() =~= s.take(i));
    assert(s.take(i + 1).last() == s[i]);
}

/// An outgoing command payload, ready to be framed for the wire.
pub struct Packet {
    data: Vec<u8>,
}

impl View for Packet {
    type V = Seq<u8>;

    closed spec fn view(&self) -> Seq<u8> {
        self.data@
    }
}

impl Packet {
    /// Wraps a command payload.
    pub fn new(body: &[u8]) -> (r: Packet)
        ensures
            r@ == body@,
    {
        let data = vstd::slice::slice_to_vec(body);
        Packet { data }
    }

    /// The checksum that a frame around this payload must carry.
    pub fn checksum(&self) -> (r: u16)
        ensures
            r == checksum_spec(self@),
    {
        let len = self.data.len();
        let mut sum: u16 = 2 + (len % 256) as u16 + (len / 256 % 256) as u16;
        assert(sum == (2 + len as int % 256 + len as int / 256 % 256 + byte_sum(self@.take(0)))
            % 0x10000);
        let mut i: usize = 0;
        while i < self.data.len()
            invariant
                i <= self.data.len(),
                len == self.data.len(),
                sum == (2 + len as int % 256 + len as int / 256 % 256 + byte_sum(self@.take(i as int)))
                    % 0x10000,
            decreases self.data.len() - i,
        {
            let ghost prev: int = 2 + len as int % 256 + len as int / 256 % 256
                + byte_sum(self@.take(i as int));
            sum = sum.wrapping_add(self.data[i] as u16);
            proof {
                lemma_byte_sum_take_step(self@, i as int);
                vstd::arithmetic::div_mod::lemma_add_mod_noop(prev, self@[i as int] as int, 0x10000);
            }
            i = i + 1;
        }
        proof {
            assert(self@.take(len as int) =~= self@);
        }
        sum
    }

    /// Builds the complete wire frame: marker, little-endian length, payload,
    /// little-endian checksum.
    pub fn frame(&self) -> (r: Vec<u8>)
        requires
            self@.len() + 2 <= 0xFFFF,
        ensures
            r@ == frame_bytes(self@),
    {
        let mut pkt: Vec<u8> = Vec::new();
        pkt.push(MARKER0);
        pkt.push(MARKER1);

        let pkt_len = self.data.len() + 2;
        pkt.push((pkt_len % 256) as u8);
        pkt.push((pkt_len / 256 % 256) as u8);

        let mut i: usize = 0;
        while i < self.data.len()
            invariant
                i <= self.data.len(),
                pkt@ == frame_bytes(self@).take(4 + i as int),
                self@.len() + 2 <= 0xFFFF,
            decreases self.data.len() - i,
        {
            pkt.push(self.data[i]);
            proof {
                assert(frame_bytes(self@).take(4 + i as int).push(self@[i as int])
                    =~= frame_bytes(self@).take(4 + i + 1));
            }
            i = i + 1;
        }

        let cs = self.checksum();
        pkt.push((cs % 256) as u8);
        pkt.push((cs / 256) as u8);
        proof {
            assert(pkt@ =~= frame_bytes(self@));
        }
        pkt
    }
}

} // verus!
