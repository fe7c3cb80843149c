//! Protocol constants and the fixed 20-byte TCP header codec.
//!
//! Multi-byte header fields are big-endian on the wire.  `TcpHdr` keeps each
//! field in network byte order, exactly as the bytes sit on the wire; the
//! accessors convert to host order by swapping bytes, and the byte codec
//! (`to_bytes` / `from_bytes`) moves a header to and from its wire form.
//! Checksum computation needs the IP pseudo-header and is left to the
//! emitting layer: the codec only carries the field.

use vstd::prelude::*;
use crate::tcp_types::{TcpSegment, TcpError, spec_flags_of_byte, TcpFlags};

verus! {

/// TCP header length in bytes, excluding options.
pub const TCP_HLEN: usize = 20;

pub const TCP_FIN: u8 = 0x01;
pub const TCP_SYN: u8 = 0x02;
pub const TCP_RST: u8 = 0x04;
pub const TCP_PSH: u8 = 0x08;
pub const TCP_ACK: u8 = 0x10;
pub const TCP_URG: u8 = 0x20;
pub const TCP_ECE: u8 = 0x40;
pub const TCP_CWR: u8 = 0x80;
/// Mask of the six flag bits carried in the packed header word.
pub const TCP_FLAGS: u8 = 0x3F;

/// Maximum TCP option bytes.
pub const TCP_MAX_OPTION_BYTES: usize = 40;

/// The two bytes of a 16-bit value exchanged.
pub open spec fn spec_swap16(x: u16) -> u16 {
    ((x & 0xFF) << 8) | (x >> 8)
}

/// The four bytes of a 32-bit value reversed.
pub open spec fn spec_swap32(x: u32) -> u32 {
    ((x & 0xFF) << 24) | ((x & 0xFF00) << 8) | ((x >> 8) & 0xFF00) | (x >> 24)
}

#[verifier::when_used_as_spec(spec_swap16)]
pub fn swap16(x: u16) -> (r: u16)
    ensures
        r == spec_swap16(x),
{
    ((x & 0xFF) << 8) | (x >> 8)
}

#[verifier::when_used_as_spec(spec_swap32)]
pub fn swap32(x: u32) -> (r: u32)
    ensures
        r == spec_swap32(x),
{
    ((x & 0xFF) << 24) | ((x & 0xFF00) << 8) | ((x >> 8) & 0xFF00) | (x >> 24)
}

/// Swapping the bytes of a 16-bit value twice gives the value back.
pub proof fn lemma_swap16_involutive(x: u16)
    ensures
        spec_swap16(spec_swap16(x)) == x,
{
    assert(((((x & 0xFF) << 8) | (x >> 8)) & 0xFF) << 8 | ((((x & 0xFF) << 8) | (x >> 8))
        >> 8) == x) by (bit_vector);
}

/// Swapping the bytes of a 32-bit value twice gives the value back.
pub proof fn lemma_swap32_involutive(x: u32)
    ensures
        spec_swap32(spec_swap32(x)) == x,
{
    let y = spec_swap32(x);
    assert(((((((x & 0xFF) << 24) | ((x & 0xFF00) << 8) | ((x >> 8) & 0xFF00) | (x >> 24)) & 0xFF)
        << 24) | (((((x & 0xFF) << 24) | ((x & 0xFF00) << 8) | ((x >> 8) & 0xFF00) | (x >> 24))
        & 0xFF00) << 8) | (((((x & 0xFF) << 24) | ((x & 0xFF00) << 8) | ((x >> 8) & 0xFF00) | (x
        >> 24)) >> 8) & 0xFF00) | ((((x & 0xFF) << 24) | ((x & 0xFF00) << 8) | ((x >> 8) & 0xFF00)
        | (x >> 24)) >> 24)) == x) by (bit_vector);
}

/// High byte of a 16-bit value.
pub open spec fn be16_hi(x: u16) -> u8 {
    ((x >> 8) & 0xFF) as u8
}

/// Low byte of a 16-bit value.
pub open spec fn be16_lo(x: u16) -> u8 {
    (x & 0xFF) as u8
}

/// Byte `k` of a 32-bit value in big-endian order, `0` being the most
/// significant.
pub open spec fn be32_byte(x: u32, k: int) -> u8 {
    if k == 0 {
        ((x >> 24) & 0xFF) as u8
    } else if k == 1 {
        ((x >> 16) & 0xFF) as u8
    } else if k == 2 {
        ((x >> 8) & 0xFF) as u8
    } else {
        (x & 0xFF) as u8
    }
}

/// The 16-bit value read from two big-endian bytes.
pub open spec fn spec_u16_from_be(b0: u8, b1: u8) -> u16 {
    ((b0 as u16) << 8) | (b1 as u16)
}

/// The 32-bit value read from four big-endian bytes.
pub open spec fn spec_u32_from_be(b0: u8, b1: u8, b2: u8, b3: u8) -> u32 {
    ((b0 as u32) << 24) | ((b1 as u32) << 16) | ((b2 as u32) << 8) | (b3 as u32)
}

/// Reading back the two big-endian bytes of a 16-bit value gives the value.
pub proof fn lemma_be16_round_trip(x: u16)
    ensures
        spec_u16_from_be(be16_hi(x), be16_lo(x)) == x,
{
    assert(((((x >> 8) & 0xFF) as u8 as u16) << 8) | ((x & 0xFF) as u8 as u16) == x)
        by (bit_vector);
}

/// Reading back the four big-endian bytes of a 32-bit value gives the value.
pub proof fn lemma_be32_round_trip(x: u32)
    ensures
        spec_u32_from_be(be32_byte(x, 0), be32_byte(x, 1), be32_byte(x, 2), be32_byte(x, 3)) == x,
{
    assert(((((x >> 24) & 0xFF) as u8 as u32) << 24) | ((((x >> 16) & 0xFF) as u8 as u32) << 16)
        | ((((x >> 8) & 0xFF) as u8 as u32) << 8) | ((x & 0xFF) as u8 as u32) == x)
        by (bit_vector);
}

/// The fixed TCP header.  Every multi-byte field is kept in network byte
/// order: `src` holds the wire bytes of the source port, and `src_port()`
/// converts to host order.
#[derive(Debug, Copy, Clone, PartialEq, Eq, Structural)]
pub struct TcpHdr {
    /// Source port, network byte order.
    pub src: u16,
    /// Destination port, network byte order.
    pub dest: u16,
    /// Sequence number, network byte order.
    pub seqno: u32,
    /// Acknowledgment number, network byte order.
    pub ackno: u32,
    /// Header length (top 4 bits, in 4-byte units), reserved bits, and the
    /// six flag bits (low bits), as one packed word in network byte order.
    pub _hdrlen_rsvd_flags: u16,
    /// Window size, network byte order.
    pub wnd: u16,
    /// Checksum, network byte order.
    pub chksum: u16,
    /// Urgent pointer, network byte order.
    pub urgp: u16,
}

impl TcpHdr {
    /// The packed header-length-and-flags word, in host order.
    pub open spec fn spec_packed(self) -> u16 {
        spec_swap16(self._hdrlen_rsvd_flags)
    }

    /// Header length in 32-bit words.
    pub open spec fn spec_hdrlen(self) -> u16 {
        self.spec_packed() >> 12
    }

    /// Header length in bytes.
    pub open spec fn spec_hdrlen_bytes(self) -> u8 {
        (self.spec_hdrlen() * 4) as u8
    }

    /// The six flag bits.
    pub open spec fn spec_flags(self) -> u8 {
        (self.spec_packed() & (TCP_FLAGS as u16)) as u8
    }

    pub open spec fn spec_src_port(self) -> u16 {
        spec_swap16(self.src)
    }

    pub open spec fn spec_dest_port(self) -> u16 {
        spec_swap16(self.dest)
    }

    pub open spec fn spec_seqno(self) -> u32 {
        spec_swap32(self.seqno)
    }

    pub open spec fn spec_ackno(self) -> u32 {
        spec_swap32(self.ackno)
    }

    pub open spec fn spec_wnd(self) -> u16 {
        spec_swap16(self.wnd)
    }

    pub open spec fn spec_chksum(self) -> u16 {
        spec_swap16(self.chksum)
    }

    pub open spec fn spec_urgp(self) -> u16 {
        spec_swap16(self.urgp)
    }

    /// Header length in 32-bit words.
    pub fn hdrlen(&self) -> (r: u16)
        ensures
            r == self.spec_hdrlen(),
            r <= 15,
    {
        let w = swap16(self._hdrlen_rsvd_flags);
        proof {
            assert(w >> 12 <= 15) by (bit_vector);
        }
        w >> 12
    }

    /// Header length in bytes.
    pub fn hdrlen_bytes(&self) -> (r: u8)
        ensures
            r == self.spec_hdrlen_bytes(),
            r == self.spec_hdrlen() * 4,
            r <= 60,
    {
        let h = self.hdrlen();
        proof {
            assert(h <= 15 ==> (h << 2) == h * 4 && (h << 2) < 256) by (bit_vector);
        }
        (h << 2) as u8
    }

    /// The six flag bits of the packed word.
    pub fn flags(&self) -> (r: u8)
        ensures
            r == self.spec_flags(),
    {
        let w = swap16(self._hdrlen_rsvd_flags);
        proof {
            assert(w & (0x3Fu8 as u16) <= 0x3F) by (bit_vector);
        }
        (w & (TCP_FLAGS as u16)) as u8
    }

    /// Set the header length (in 32-bit words), keeping the flags.
    pub fn set_hdrlen(&mut self, len: u16)
        requires
            len <= 15,
        ensures
            *final(self) == (TcpHdr { _hdrlen_rsvd_flags: final(self)._hdrlen_rsvd_flags, ..*old(self) }),
            final(self).spec_packed() == (len << 12) | (old(self).spec_flags() as u16),
            final(self).spec_hdrlen() == len,
            final(self).spec_flags() == old(self).spec_flags(),
    {
        let current_flags = self.flags();
        let packed = (len << 12) | (current_flags as u16);
        self._hdrlen_rsvd_flags = swap16(packed);
        proof {
            lemma_swap16_involutive(packed);
            let f = current_flags;
            assert(f <= 0x3F && len <= 15 ==> ((len << 12) | (f as u16)) >> 12 == len
                && (((len << 12) | (f as u16)) & 0x3F) == f as u16) by (bit_vector);
            assert(old(self).spec_flags() <= 0x3F) by {
                let w = old(self).spec_packed();
                assert(w & (0x3Fu8 as u16) <= 0x3F) by (bit_vector);
            }
        }
    }

    /// Set the six flag bits, keeping the header length and dropping the
    /// reserved bits.
    pub fn set_flags(&mut self, flags: u8)
        ensures
            *final(self) == (TcpHdr { _hdrlen_rsvd_flags: final(self)._hdrlen_rsvd_flags, ..*old(self) }),
            final(self).spec_packed() == (old(self).spec_hdrlen() << 12) | (flags as u16),
            final(self).spec_hdrlen() == old(self).spec_hdrlen(),
            final(self).spec_flags() == flags & TCP_FLAGS,
    {
        let hdrlen = self.hdrlen();
        let packed = (hdrlen << 12) | (flags as u16);
        self._hdrlen_rsvd_flags = swap16(packed);
        proof {
            lemma_swap16_involutive(packed);
            let h = hdrlen;
            assert(h <= 15 ==> ((h << 12) | (flags as u16)) >> 12 == h
                && ((((h << 12) | (flags as u16)) & 0x3F) as u8) == (flags & 0x3F))
                by (bit_vector);
        }
    }

    /// Set the header length and the flags together.
    pub fn set_hdrlen_flags(&mut self, len: u16, flags: u8)
        requires
            len <= 15,
        ensures
            *final(self) == (TcpHdr { _hdrlen_rsvd_flags: final(self)._hdrlen_rsvd_flags, ..*old(self) }),
            final(self).spec_packed() == (len << 12) | (flags as u16),
            final(self).spec_hdrlen() == len,
            final(self).spec_flags() == flags & TCP_FLAGS,
    {
        let packed = (len << 12) | (flags as u16);
        self._hdrlen_rsvd_flags = swap16(packed);
        proof {
            lemma_swap16_involutive(packed);
            assert(len <= 15 ==> ((len << 12) | (flags as u16)) >> 12 == len
                && ((((len << 12) | (flags as u16)) & 0x3F) as u8) == (flags & 0x3F))
                by (bit_vector);
        }
    }

    /// Set the given flag bits in the packed word.
    pub fn set_flag(&mut self, flag: u8)
        ensures
            *final(self) == (TcpHdr { _hdrlen_rsvd_flags: final(self)._hdrlen_rsvd_flags, ..*old(self) }),
            final(self).spec_packed() == old(self).spec_packed() | (flag as u16),
    {
        let current = swap16(self._hdrlen_rsvd_flags);
        let packed = current | (flag as u16);
        self._hdrlen_rsvd_flags = swap16(packed);
        proof {
            lemma_swap16_involutive(packed);
        }
    }

    /// Clear the given flag bits in the packed word.
    pub fn unset_flag(&mut self, flag: u8)
        ensures
            *final(self) == (TcpHdr { _hdrlen_rsvd_flags: final(self)._hdrlen_rsvd_flags, ..*old(self) }),
            final(self).spec_packed() == old(self).spec_packed() & !(flag as u16),
    {
        let current = swap16(self._hdrlen_rsvd_flags);
        let packed = current & !(flag as u16);
        self._hdrlen_rsvd_flags = swap16(packed);
        proof {
            lemma_swap16_involutive(packed);
        }
    }

    /// Source port in host order.
    pub fn src_port(&self) -> (r: u16)
        ensures
            r == self.spec_src_port(),
    {
        swap16(self.src)
    }

    /// Destination port in host order.
    pub fn dest_port(&self) -> (r: u16)
        ensures
            r == self.spec_dest_port(),
    {
        swap16(self.dest)
    }

    /// Sequence number in host order.
    pub fn sequence_number(&self) -> (r: u32)
        ensures
            r == self.spec_seqno(),
    {
        swap32(self.seqno)
    }

    /// Acknowledgment number in host order.
    pub fn ack_number(&self) -> (r: u32)
        ensures
            r == self.spec_ackno(),
    {
        swap32(self.ackno)
    }

    /// Window size in host order.
    pub fn window(&self) -> (r: u16)
        ensures
            r == self.spec_wnd(),
    {
        swap16(self.wnd)
    }

    /// Checksum in host order.
    pub fn checksum(&self) -> (r: u16)
        ensures
            r == self.spec_chksum(),
    {
        swap16(self.chksum)
    }

    /// Urgent pointer in host order.
    pub fn urgent_pointer(&self) -> (r: u16)
        ensures
            r == self.spec_urgp(),
    {
        swap16(self.urgp)
    }
}

/// The 20 wire bytes of a header, big-endian field by field.
pub open spec fn spec_header_bytes(h: TcpHdr) -> Seq<u8> {
    seq![
        be16_hi(h.spec_src_port()),
        be16_lo(h.spec_src_port()),
        be16_hi(h.spec_dest_port()),
        be16_lo(h.spec_dest_port()),
        be32_byte(h.spec_seqno(), 0),
        be32_byte(h.spec_seqno(), 1),
        be32_byte(h.spec_seqno(), 2),
        be32_byte(h.spec_seqno(), 3),
        be32_byte(h.spec_ackno(), 0),
        be32_byte(h.spec_ackno(), 1),
        be32_byte(h.spec_ackno(), 2),
        be32_byte(h.spec_ackno(), 3),
        be16_hi(h.spec_packed()),
        be16_lo(h.spec_packed()),
        be16_hi(h.spec_wnd()),
        be16_lo(h.spec_wnd()),
        be16_hi(h.spec_chksum()),
        be16_lo(h.spec_chksum()),
        be16_hi(h.spec_urgp()),
        be16_lo(h.spec_urgp()),
    ]
}

/// The header read from the first 20 bytes of a wire segment.
pub open spec fn spec_header_of_bytes(b: Seq<u8>) -> TcpHdr
    recommends
        b.len() >= 20,
{
    TcpHdr {
        src: spec_swap16(spec_u16_from_be(b[0], b[1])),
        dest: spec_swap16(spec_u16_from_be(b[2], b[3])),
        seqno: spec_swap32(spec_u32_from_be(b[4], b[5], b[6], b[7])),
        ackno: spec_swap32(spec_u32_from_be(b[8], b[9], b[10], b[11])),
        _hdrlen_rsvd_flags: spec_swap16(spec_u16_from_be(b[12], b[13])),
        wnd: spec_swap16(spec_u16_from_be(b[14], b[15])),
        chksum: spec_swap16(spec_u16_from_be(b[16], b[17])),
        urgp: spec_swap16(spec_u16_from_be(b[18], b[19])),
    }
}

/// Encoding a header to its 20 wire bytes and decoding them gives the header
/// back bit-exactly.
pub proof fn lemma_header_round_trip(h: TcpHdr)
    ensures
        spec_header_of_bytes(spec_header_bytes(h)) == h,
{
    lemma_be16_round_trip(h.spec_src_port());
    lemma_be16_round_trip(h.spec_dest_port());
    lemma_be32_round_trip(h.spec_seqno());
    lemma_be32_round_trip(h.spec_ackno());
    lemma_be16_round_trip(h.spec_packed());
    lemma_be16_round_trip(h.spec_wnd());
    lemma_be16_round_trip(h.spec_chksum());
    lemma_be16_round_trip(h.spec_urgp());
    lemma_swap16_involutive(h.src);
    lemma_swap16_involutive(h.dest);
    lemma_swap32_involutive(h.seqno);
    lemma_swap32_involutive(h.ackno);
    lemma_swap16_involutive(h._hdrlen_rsvd_flags);
    lemma_swap16_involutive(h.wnd);
    lemma_swap16_involutive(h.chksum);
    lemma_swap16_involutive(h.urgp);
}

fn push_be16(v: &mut Vec<u8>, x: u16)
    ensures
        final(v)@ == old(v)@ + seq![be16_hi(x), be16_lo(x)],
{
    proof {
        assert((x >> 8) & 0xFF < 256 && x & 0xFF < 256) by (bit_vector);
    }
    v.push(((x >> 8) & 0xFF) as u8);
    v.push((x & 0xFF) as u8);
    proof {
        assert(final(v)@ =~= old(v)@ + seq![be16_hi(x), be16_lo(x)]);
    }
}

fn push_be32(v: &mut Vec<u8>, x: u32)
    ensures
        final(v)@ == old(v)@ + seq![
            be32_byte(x, 0),
            be32_byte(x, 1),
            be32_byte(x, 2),
            be32_byte(x, 3),
        ],
{
    proof {
        assert((x >> 24) & 0xFF < 256 && (x >> 16) & 0xFF < 256 && (x >> 8) & 0xFF < 256 && x
            & 0xFF < 256) by (bit_vector);
    }
    v.push(((x >> 24) & 0xFF) as u8);
    v.push(((x >> 16) & 0xFF) as u8);
    v.push(((x >> 8) & 0xFF) as u8);
    v.push((x & 0xFF) as u8);
    proof {
        assert(final(v)@ =~= old(v)@ + seq![
            be32_byte(x, 0),
            be32_byte(x, 1),
            be32_byte(x, 2),
            be32_byte(x, 3),
        ]);
    }
}

impl TcpHdr {
    /// Emit the header as its 20 wire bytes.
    pub fn to_bytes(&self) -> (r: Vec<u8>)
        ensures
            r@ == spec_header_bytes(*self),
            r@.len() == 20,
    {
        let mut v: Vec<u8> = Vec::new();
        push_be16(&mut v, self.src_port());
        push_be16(&mut v, self.dest_port());
        push_be32(&mut v, self.sequence_number());
        push_be32(&mut v, self.ack_number());
        push_be16(&mut v, swap16(self._hdrlen_rsvd_flags));
        push_be16(&mut v, self.window());
        push_be16(&mut v, self.checksum());
        push_be16(&mut v, self.urgent_pointer());
        proof {
            assert(v@ =~= spec_header_bytes(*self));
        }
        v
    }

    /// Read a header from the first 20 bytes of a wire segment; a shorter
    /// input is rejected.
    pub fn from_bytes(b: &[u8]) -> (r: Result<TcpHdr, TcpError>)
        ensures
            b@.len() < 20 ==> r == Err::<TcpHdr, TcpError>(TcpError::ShortHeader),
            b@.len() >= 20 ==> r == Ok::<TcpHdr, TcpError>(spec_header_of_bytes(b@)),
    {
        if b.len() < 20 {
            return Err(TcpError::ShortHeader);
        }
        Ok(TcpHdr {
            src: swap16(u16_from_be(b[0], b[1])),
            dest: swap16(u16_from_be(b[2], b[3])),
            seqno: swap32(u32_from_be(b[4], b[5], b[6], b[7])),
            ackno: swap32(u32_from_be(b[8], b[9], b[10], b[11])),
            _hdrlen_rsvd_flags: swap16(u16_from_be(b[12], b[13])),
            wnd: swap16(u16_from_be(b[14], b[15])),
            chksum: swap16(u16_from_be(b[16], b[17])),
            urgp: swap16(u16_from_be(b[18], b[19])),
        })
    }
}

/// The 16-bit value read from two big-endian bytes.
#[verifier::when_used_as_spec(spec_u16_from_be)]
pub fn u16_from_be(b0: u8, b1: u8) -> (r: u16)
    ensures
        r == spec_u16_from_be(b0, b1),
{
    ((b0 as u16) << 8) | (b1 as u16)
}

/// The 32-bit value read from four big-endian bytes.
#[verifier::when_used_as_spec(spec_u32_from_be)]
pub fn u32_from_be(b0: u8, b1: u8, b2: u8, b3: u8) -> (r: u32)
    ensures
        r == spec_u32_from_be(b0, b1, b2, b3),
{
    ((b0 as u32) << 24) | ((b1 as u32) << 16) | ((b2 as u32) << 8) | (b3 as u32)
}

/// The parsed segment read from a whole wire segment: the fixed header,
/// the unpacked flags, and the payload length implied by the total length.
pub open spec fn spec_parse_segment(b: Seq<u8>) -> Result<TcpSegment, TcpError> {
    if b.len() < 20 {
        Err(TcpError::ShortHeader)
    } else {
        let h = spec_header_of_bytes(b);
        let hl = h.spec_hdrlen_bytes();
        Ok(
            TcpSegment {
                seqno: h.spec_seqno(),
                ackno: h.spec_ackno(),
                flags: spec_flags_of_byte(h.spec_flags()),
                wnd: h.spec_wnd(),
                tcphdr_len: hl as u16,
                payload_len: if b.len() > hl { (b.len() - hl) as u16 } else { 0u16 },
            },
        )
    }
}

/// Parse a whole wire segment into its header fields, flags and payload
/// length.  Rejects a segment shorter than the fixed header.
pub fn parse_tcp_header(b: &[u8]) -> (r: Result<TcpSegment, TcpError>)
    requires
        b@.len() <= 0xFFFF,
    ensures
        r == spec_parse_segment(b@),
{
    let hdr = match TcpHdr::from_bytes(b) {
        Ok(h) => h,
        Err(e) => {
            return Err(e);
        },
    };
    let hl = hdr.hdrlen_bytes();
    let total = b.len() as u16;
    let payload_len = if total > hl as u16 {
        total - hl as u16
    } else {
        0u16
    };
    Ok(TcpSegment {
        seqno: hdr.sequence_number(),
        ackno: hdr.ack_number(),
        flags: TcpFlags::from_tcphdr(hdr.flags()),
        wnd: hdr.window(),
        tcphdr_len: hl as u16,
        payload_len,
    })
}

/// Build a bare 20-byte header (header length 5, no options, checksum left
/// for the emitting layer) from host-order field values.
pub fn make_header(src_port: u16, dest_port: u16, seqno: u32, ackno: u32, flags: u8, wnd: u16) -> (r:
    TcpHdr)
    ensures
        r.spec_src_port() == src_port,
        r.spec_dest_port() == dest_port,
        r.spec_seqno() == seqno,
        r.spec_ackno() == ackno,
        r.spec_hdrlen() == 5,
        r.spec_flags() == flags & TCP_FLAGS,
        r.spec_wnd() == wnd,
        r.spec_chksum() == 0,
        r.spec_urgp() == 0,
{
    let packed = (5u16 << 12) | (flags as u16);
    let r = TcpHdr {
        src: swap16(src_port),
        dest: swap16(dest_port),
        seqno: swap32(seqno),
        ackno: swap32(ackno),
        _hdrlen_rsvd_flags: swap16(packed),
        wnd: swap16(wnd),
        chksum: swap16(0),
        urgp: swap16(0),
    };
    proof {
        lemma_swap16_involutive(src_port);
        lemma_swap16_involutive(dest_port);
        lemma_swap32_involutive(seqno);
        lemma_swap32_involutive(ackno);
        lemma_swap16_involutive(packed);
        lemma_swap16_involutive(wnd);
        lemma_swap16_involutive(0);
        assert(((5u16 << 12) | (flags as u16)) >> 12 == 5 && ((((5u16 << 12) | (flags as u16))
            & 0x3F) as u8) == (flags & 0x3F)) by (bit_vector);
        assert(spec_swap16(0) == 0) by (bit_vector);
    }
    r
}

} // verus!
