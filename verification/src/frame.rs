//! Decoding of the EtherCAT frame header and of the enclosing Ethernet
//! frame, and the proof that the bit-packed frame header round-trips.

use vstd::prelude::*;

use crate::be16_spec;
use crate::le16_spec;
use crate::datagram::datagrams_spec;
use crate::datagram::parse_datagrams;
use crate::datagram::EtherCATDatagram;
use crate::DecodeError;

verus! {

/// The ethertype value that marks an EtherCAT payload.
pub const ETHERCAT_ETHERTYPE: u16 = 0x88A4;

/// Length of the Ethernet header: two 6-byte addresses and the ethertype.
pub const ETHERNET_HEADER_LEN: usize = 14;

/// The 2-byte EtherCAT frame header, with its bit-packed fields unpacked:
/// `length` is bits 0..11, `reserved` bit 11, `ecat_frame_type` bits 12..16
/// of the little-endian 16-bit word.
#[derive(Debug, Clone, Copy, PartialEq, Eq, Structural)]
pub struct EtherCATFrameHeader {
    /// Count of payload bytes following the frame header (11 bits).
    pub length: u16,
    /// Reserved bit; ignored for decoding but preserved for display.
    pub reserved: u8,
    /// Frame category (4 bits); 1 means the frame carries datagrams.
    pub ecat_frame_type: u8,
}

/// The frame header unpacked from its 16-bit wire word.
pub open spec fn frame_header_spec(w: u16) -> EtherCATFrameHeader {
    EtherCATFrameHeader {
        length: w & 0x07FF,
        reserved: ((w >> 11) & 1) as u8,
        ecat_frame_type: ((w >> 12) & 0xF) as u8,
    }
}

/// The 16-bit wire word packed back from the three header fields.
pub open spec fn frame_header_encode_spec(h: EtherCATFrameHeader) -> u16 {
    (h.length & 0x07FF) | (((h.reserved & 1) as u16) << 11) | (((h.ecat_frame_type & 0xF)
        as u16) << 12)
}

/// Unpacks the 2-byte EtherCAT frame header from its wire word.
pub fn decode_frame_header(w: u16) -> (h: EtherCATFrameHeader)
    ensures
        h == frame_header_spec(w),
{
    EtherCATFrameHeader {
        length: w & 0x07FF,
        reserved: ((w >> 11) & 1) as u8,
        ecat_frame_type: ((w >> 12) & 0xF) as u8,
    }
}

/// Packs the three header fields back into their wire word.
pub fn encode_frame_header(h: &EtherCATFrameHeader) -> (w: u16)
    ensures
        w == frame_header_encode_spec(*h),
{
    (h.length & 0x07FF) | (((h.reserved & 1) as u16) << 11) | (((h.ecat_frame_type & 0xF)
        as u16) << 12)
}

/// Law: for every 16-bit frame-header word, decoding the
/// `(length, reserved, frame_type)` triple and re-encoding it reproduces
/// the original 16 bits exactly.
pub proof fn lemma_frame_header_round_trip(w: u16)
    ensures
        frame_header_encode_spec(frame_header_spec(w)) == w,
{
    assert(((w & 0x07FF) & 0x07FF) | (((((w >> 11) & 1) as u8) & 1) as u16) << 11 | (((((w
        >> 12) & 0xF) as u8) & 0xF) as u16) << 12 == w) by (bit_vector);
}

/// One decoded EtherCAT frame: the unpacked header and the datagrams of
/// the frame in wire order. When the buffer ends inside a datagram,
/// `truncated` is set and `datagrams` holds those decoded before that
/// point; no record is produced past the truncation.
#[derive(Debug, PartialEq, Eq)]
pub struct EtherCATFrame {
    pub header: EtherCATFrameHeader,
    pub datagrams: Vec<EtherCATDatagram>,
    /// Whether the datagram walk was stopped by missing bytes.
    pub truncated: bool,
}

impl EtherCATFrame {
    /// Decodes the EtherCAT frame that starts at `off`: the 2-byte
    /// little-endian header word, then the datagrams from `off + 2` on.
    /// Fails if and only if even the 2 header bytes are missing.
    pub fn parse(buf: &[u8], off: usize) -> (r: Result<EtherCATFrame, DecodeError>)
        requires
            off <= buf@.len(),
        ensures
            match r {
                Ok(f) => {
                    &&& off + 2 <= buf@.len()
                    &&& f.header == frame_header_spec(le16_spec(buf@[off as int], buf@[off + 1]))
                    &&& f.datagrams@ == datagrams_spec(buf@, off + 2).0
                    &&& f.truncated == (datagrams_spec(buf@, off + 2).1 is Some)
                },
                Err(e) => e == DecodeError::TruncatedInput && off + 2 > buf@.len(),
            },
    {
        if buf.len() - off < 2 {
            return Err(DecodeError::TruncatedInput);
        }
        let header = decode_frame_header(crate::le16(buf[off], buf[off + 1]));
        let (datagrams, err) = parse_datagrams(buf, off + 2);
        Ok(EtherCATFrame { header, datagrams, truncated: err.is_some() })
    }
}

/// One decoded Ethernet frame carrying an EtherCAT payload. The payload
/// bytes start at `ETHERNET_HEADER_LEN` in the decoded buffer; they are
/// not copied.
#[derive(Debug, PartialEq, Eq)]
pub struct EtherNetFrame {
    /// Destination physical address: bytes 0..6 of the buffer.
    pub dst_mac: Vec<u8>,
    /// Source physical address: bytes 6..12 of the buffer.
    pub src_mac: Vec<u8>,
    /// Ethertype, parsed big-endian from bytes 12..14.
    pub frame_type: u16,
    /// The EtherCAT frame decoded from the bytes after the header.
    pub ecat_frame: EtherCATFrame,
}

impl EtherNetFrame {
    /// Strips the 14-byte Ethernet header and decodes the EtherCAT frame
    /// behind it. Fails with `TruncatedInput` when fewer than 16 bytes are
    /// present (Ethernet header plus EtherCAT header), and with
    /// `NotEtherCat` when the ethertype is not the EtherCAT one.
    pub fn parse(buf: &[u8]) -> (r: Result<EtherNetFrame, DecodeError>)
        ensures
            match r {
                Ok(f) => {
                    &&& buf@.len() >= 16
                    &&& f.dst_mac@ == buf@.subrange(0, 6)
                    &&& f.src_mac@ == buf@.subrange(6, 12)
                    &&& f.frame_type == be16_spec(buf@[12], buf@[13])
                    &&& f.frame_type == ETHERCAT_ETHERTYPE
                    &&& f.ecat_frame.header == frame_header_spec(le16_spec(buf@[14], buf@[15]))
                    &&& f.ecat_frame.datagrams@ == datagrams_spec(buf@, 16).0
                    &&& f.ecat_frame.truncated == (datagrams_spec(buf@, 16).1 is Some)
                },
                Err(DecodeError::NotEtherCat) => buf@.len() >= 14 && be16_spec(buf@[12], buf@[13])
                    != ETHERCAT_ETHERTYPE,
                Err(DecodeError::TruncatedInput) => buf@.len() < 14 || (buf@.len() < 16
                    && be16_spec(buf@[12], buf@[13]) == ETHERCAT_ETHERTYPE),
            },
    {
        if buf.len() < ETHERNET_HEADER_LEN {
            return Err(DecodeError::TruncatedInput);
        }
        let dst_mac = read_bytes(buf, 0, 6);
        let src_mac = read_bytes(buf, 6, 6);
        let frame_type = crate::be16(buf[12], buf[13]);
        if frame_type != ETHERCAT_ETHERTYPE {
            return Err(DecodeError::NotEtherCat);
        }
        let ecat_frame = EtherCATFrame::parse(buf, ETHERNET_HEADER_LEN)?;
        Ok(EtherNetFrame { dst_mac, src_mac, frame_type, ecat_frame })
    }
}

/// Copies `len` bytes of `buf` starting at `start` into a fresh vector.
fn read_bytes(buf: &[u8], start: usize, len: usize) -> (r: Vec<u8>)
    requires
        start + len <= buf@.len(),
    ensures
        r@ == buf@.subrange(start as int, start + len),
{
    let n = buf.len();
    let mut r: Vec<u8> = Vec::new();
    let mut i: usize = 0;
    while i < len
        invariant
            i <= len,
            start + len <= n,
            n == buf@.len(),
            r@ == buf@.subrange(start as int, start + i),
        decreases len - i,
    {
        r.push(buf[start + i]);
        proof {
            assert(r@ =~= buf@.subrange(start as int, start + i + 1));
        }
        i = i + 1;
    }
    r
}

} // verus!
