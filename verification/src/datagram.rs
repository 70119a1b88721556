//! Decoding of EtherCAT datagrams: one datagram at a byte offset, and the
//! iteration over all datagrams of a frame until the terminating flag.
//!
//! A datagram occupies exactly `10 + length + 2` bytes on the wire: a
//! fixed 10-byte header, `length` payload bytes, and a 2-byte working
//! counter. The payload is kept as an offset into the caller's buffer,
//! never copied.

use vstd::prelude::*;

use crate::command::EtherCATCommand;
use crate::command::command_decode_spec;
use crate::le16_spec;
use crate::DecodeError;

verus! {

/// The fixed header of one datagram, with its bit-packed fields unpacked.
#[derive(Debug, Clone, Copy, PartialEq, Eq, Structural)]
pub struct EtherCATDatagramHeader {
    /// Symbolic command decoded from the command byte.
    pub cmd: EtherCATCommand,
    /// Caller-assigned correlation tag; opaque to the decoder.
    pub index: u8,
    /// ADP: the primary (slave) address field.
    pub slave_addr: u16,
    /// ADO: the secondary (offset) address field.
    pub offset_addr: u16,
    /// Number of payload bytes carried by this datagram (11 bits).
    pub length: u16,
    /// Circulating-frame indicator (1 bit).
    pub round_trip: u8,
    /// Wire bit 15: 1 means more datagrams follow, 0 means this is the
    /// last datagram of the frame.
    pub last_indicator: u8,
    /// Interrupt-request mask; opaque to the decoder.
    pub irq: u16,
}

/// One decoded datagram. The payload is the `header.length` bytes of the
/// input buffer starting at `data_start`; it is not copied.
#[derive(Debug, Clone, Copy, PartialEq, Eq, Structural)]
pub struct EtherCATDatagram {
    pub header: EtherCATDatagramHeader,
    /// Offset of the first payload byte within the decoded buffer.
    pub data_start: usize,
    /// Working counter, read from the 2 bytes following the payload.
    pub wkc: u16,
}

/// The declared payload length of the datagram starting at `off`:
/// bits 0..11 of the little-endian 16-bit word at bytes 6-7.
pub open spec fn dgram_len_field(buf: Seq<u8>, off: int) -> u16 {
    le16_spec(buf[off + 6], buf[off + 7]) & 0x07FF
}

/// Whether the buffer holds the whole datagram that starts at `off`:
/// the 10-byte header, the declared payload, and the working counter.
pub open spec fn dgram_fits(buf: Seq<u8>, off: int) -> bool {
    &&& 0 <= off
    &&& off + 12 <= buf.len()
    &&& off + 12 + dgram_len_field(buf, off) <= buf.len()
}

/// Total wire size of the datagram starting at `off`: a 10-byte header,
/// the declared payload, and the 2-byte working counter.
pub open spec fn dgram_size(buf: Seq<u8>, off: int) -> int {
    10 + dgram_len_field(buf, off) + 2
}

/// Whether the datagram starting at `off` announces a successor
/// (wire bit 15 of the length word).
pub open spec fn dgram_more(buf: Seq<u8>, off: int) -> bool {
    (le16_spec(buf[off + 6], buf[off + 7]) >> 15) & 1 == 1
}

/// The datagram read from `buf` at `off`, assuming it fits.
pub open spec fn dgram_at(buf: Seq<u8>, off: int) -> EtherCATDatagram {
    let lrl = le16_spec(buf[off + 6], buf[off + 7]);
    let len = (lrl & 0x07FF) as int;
    EtherCATDatagram {
        header: EtherCATDatagramHeader {
            cmd: command_decode_spec(buf[off]),
            index: buf[off + 1],
            slave_addr: le16_spec(buf[off + 2], buf[off + 3]),
            offset_addr: le16_spec(buf[off + 4], buf[off + 5]),
            length: lrl & 0x07FF,
            round_trip: ((lrl >> 14) & 1) as u8,
            last_indicator: ((lrl >> 15) & 1) as u8,
            irq: le16_spec(buf[off + 8], buf[off + 9]),
        },
        data_start: (off + 10) as usize,
        wkc: le16_spec(buf[off + 10 + len], buf[off + 11 + len]),
    }
}

impl EtherCATDatagram {
    /// Decodes the datagram that starts at `off` in `buf`. Succeeds if and
    /// only if the buffer holds the full `10 + length + 2` bytes; the
    /// bounds check precedes every payload access, so an adversarial
    /// `length` can never cause an out-of-bounds read.
    pub fn parse_one_datagram(buf: &[u8], off: usize) -> (r: Result<EtherCATDatagram, DecodeError>)
        requires
            off <= buf@.len(),
        ensures
            dgram_fits(buf@, off as int) ==> r == Ok::<EtherCATDatagram, DecodeError>(
                dgram_at(buf@, off as int),
            ),
            !dgram_fits(buf@, off as int) ==> r == Err::<EtherCATDatagram, DecodeError>(
                DecodeError::TruncatedInput,
            ),
    {
        if buf.len() - off < 12 {
            return Err(DecodeError::TruncatedInput);
        }
        let lrl = crate::le16(buf[off + 6], buf[off + 7]);
        let length = lrl & 0x07FF;
        assert(length <= 0x07FF) by (bit_vector)
            requires
                length == lrl & 0x07FF,
        ;
        if buf.len() - off - 12 < length as usize {
            return Err(DecodeError::TruncatedInput);
        }
        let len = length as usize;
        Ok(EtherCATDatagram {
            header: EtherCATDatagramHeader {
                cmd: EtherCATCommand::decode(buf[off]),
                index: buf[off + 1],
                slave_addr: crate::le16(buf[off + 2], buf[off + 3]),
                offset_addr: crate::le16(buf[off + 4], buf[off + 5]),
                length,
                round_trip: ((lrl >> 14) & 1) as u8,
                last_indicator: ((lrl >> 15) & 1) as u8,
                irq: crate::le16(buf[off + 8], buf[off + 9]),
            },
            data_start: off + 10,
            wkc: crate::le16(buf[off + 10 + len], buf[off + 11 + len]),
        })
    }

    /// Whether this datagram is the last one of its frame: wire bit 15
    /// ("more datagrams follow") is 0.
    pub fn is_last_datagram(&self) -> (r: bool)
        ensures
            r == (self.header.last_indicator == 0),
    {
        self.header.last_indicator == 0
    }

    /// Total wire size of this datagram: the 10-byte header, the payload,
    /// and the 2-byte working counter.
    pub fn size(&self) -> (r: usize)
        ensures
            r == 10 + self.header.length + 2,
    {
        10 + self.header.length as usize + 2
    }
}

/// The wire-order sequence of datagrams read from `buf` starting at `off`,
/// paired with the error, if any, that stopped the walk. The walk stops
/// normally when a datagram's "more follows" bit is 0; a datagram that
/// does not fit stops it with `TruncatedInput`, and the datagrams decoded
/// before that point are kept.
pub open spec fn datagrams_spec(buf: Seq<u8>, off: int) -> (Seq<EtherCATDatagram>, Option<
    DecodeError,
>)
    decreases buf.len() - off,
{
    if !dgram_fits(buf, off) {
        (Seq::empty(), Some(DecodeError::TruncatedInput))
    } else if !dgram_more(buf, off) {
        (seq![dgram_at(buf, off)], None)
    } else {
        let rest = datagrams_spec(buf, off + dgram_size(buf, off));
        (seq![dgram_at(buf, off)] + rest.0, rest.1)
    }
}

/// A lazy, non-restartable walk over the datagrams of one frame. `pos` is
/// the offset of the next datagram within the buffer; `done` is set once
/// the terminating flag or a truncation has been seen.
pub struct EtherCATDatagramIterator {
    pub pos: usize,
    pub done: bool,
}

impl EtherCATDatagramIterator {
    /// Starts a walk at byte offset `off`.
    pub fn new(off: usize) -> (it: EtherCATDatagramIterator)
        ensures
            it.pos == off,
            !it.done,
    {
        EtherCATDatagramIterator { pos: off, done: false }
    }

    /// Decodes the next datagram, if any. On success the cursor advances
    /// by exactly the datagram's wire size (`10 + length + 2`); on
    /// truncation the walk ends and yields nothing further.
    pub fn next(&mut self, buf: &[u8]) -> (r: Result<Option<EtherCATDatagram>, DecodeError>)
        requires
            old(self).pos <= buf@.len(),
        ensures
            old(self).done ==> r == Ok::<Option<EtherCATDatagram>, DecodeError>(None)
                && *final(self) == *old(self),
            !old(self).done && !dgram_fits(buf@, old(self).pos as int) ==> r == Err::<
                Option<EtherCATDatagram>,
                DecodeError,
            >(DecodeError::TruncatedInput) && final(self).done && final(self).pos == old(self).pos,
            !old(self).done && dgram_fits(buf@, old(self).pos as int) ==> {
                &&& r == Ok::<Option<EtherCATDatagram>, DecodeError>(
                    Some(dgram_at(buf@, old(self).pos as int)),
                )
                &&& final(self).pos == old(self).pos + dgram_size(buf@, old(self).pos as int)
                &&& final(self).pos <= buf@.len()
                &&& final(self).done == !dgram_more(buf@, old(self).pos as int)
            },
    {
        if self.done {
            return Ok(None);
        }
        match EtherCATDatagram::parse_one_datagram(buf, self.pos) {
            Err(e) => {
                self.done = true;
                Err(e)
            },
            Ok(d) => {
                let n = buf.len();
                proof {
                    assert(d == dgram_at(buf@, old(self).pos as int));
                    assert(d.header.length == dgram_len_field(buf@, old(self).pos as int));
                    assert(old(self).pos + 12 + d.header.length <= n);
                    let w: u16 = le16_spec(
                        buf@[old(self).pos + 6],
                        buf@[old(self).pos + 7],
                    );
                    assert((w >> 15) & 1 == 0 || (w >> 15) & 1 == 1) by (bit_vector);
                }
                self.pos = self.pos + d.size();
                self.done = d.is_last_datagram();
                Ok(Some(d))
            },
        }
    }
}

/// Decodes all datagrams of one frame, front to back, and returns them in
/// wire order together with the truncation error, if the walk hit one.
/// The result is exactly `datagrams_spec` of the buffer.
pub fn parse_datagrams(buf: &[u8], off: usize) -> (r: (Vec<EtherCATDatagram>, Option<DecodeError>))
    requires
        off <= buf@.len(),
    ensures
        r.0@ == datagrams_spec(buf@, off as int).0,
        r.1 == datagrams_spec(buf@, off as int).1,
{
    let mut it = EtherCATDatagramIterator::new(off);
    let mut acc: Vec<EtherCATDatagram> = Vec::new();
    proof {
        assert(acc@ + datagrams_spec(buf@, off as int).0 =~= datagrams_spec(buf@, off as int).0);
    }
    loop
        invariant
            it.pos <= buf@.len(),
            !it.done,
            datagrams_spec(buf@, off as int).0 == acc@ + datagrams_spec(buf@, it.pos as int).0,
            datagrams_spec(buf@, off as int).1 == datagrams_spec(buf@, it.pos as int).1,
        decreases buf@.len() - it.pos,
    {
        let ghost pos0 = it.pos as int;
        match it.next(buf) {
            Err(e) => {
                proof {
                    assert(datagrams_spec(buf@, off as int).0 =~= acc@);
                }
                return (acc, Some(e));
            },
            Ok(None) => {
                proof {
                    assert(false);
                }
                return (acc, None);
            },
            Ok(Some(d)) => {
                acc.push(d);
                if it.done {
                    proof {
                        assert(datagrams_spec(buf@, off as int).0 =~= acc@);
                    }
                    return (acc, None);
                }
                proof {
                    assert(acc@ + datagrams_spec(buf@, it.pos as int).0 =~= datagrams_spec(
                        buf@,
                        off as int,
                    ).0);
                }
            },
        }
    }
}

/// Law: a buffer of exactly `10 + L + 2` bytes whose length field reads
/// `L` holds exactly one whole datagram, and the datagram's wire size --
/// the amount the iterator's cursor advances by -- is exactly the whole
/// buffer, so the decoder consumes every byte and no more.
pub proof fn lemma_datagram_consumes_exactly(buf: Seq<u8>, len_field: u16)
    requires
        buf.len() == 10 + len_field + 2,
        dgram_len_field(buf, 0) == len_field,
    ensures
        dgram_fits(buf, 0),
        dgram_size(buf, 0) == buf.len(),
        dgram_at(buf, 0).header.length == len_field,
{
}

} // verus!

