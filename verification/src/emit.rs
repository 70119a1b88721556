//! Rendering of decoded datagrams: one CSV record per datagram, with the
//! enclosing frame's addressing context, as ASCII bytes.
//!
//! Field order and bases follow the advertised header line: MAC addresses
//! as space-separated lowercase hex octets, `irq` in hex, the payload as
//! space-separated two-digit hex bytes, everything else in decimal.

use vstd::prelude::*;

use crate::command::EtherCATCommand;
use crate::datagram::EtherCATDatagram;

verus! {

/// ASCII decimal digit for one value below 10.
pub open spec fn dec_digit(d: nat) -> u8 {
    (48 + d) as u8
}

/// ASCII lowercase hexadecimal digit for one value below 16.
pub open spec fn hex_digit(d: nat) -> u8 {
    if d < 10 {
        (48 + d) as u8
    } else {
        (87 + d) as u8
    }
}

/// Decimal rendering of a number, most significant digit first, without
/// leading zeros (a lone `0` for zero).
pub open spec fn dec_seq(n: nat) -> Seq<u8>
    decreases n,
{
    if n < 10 {
        seq![dec_digit(n)]
    } else {
        dec_seq(n / 10) + seq![dec_digit(n % 10)]
    }
}

/// Lowercase hexadecimal rendering of a number, without leading zeros.
pub open spec fn hex_seq(n: nat) -> Seq<u8>
    decreases n,
{
    if n < 16 {
        seq![hex_digit(n)]
    } else {
        hex_seq(n / 16) + seq![hex_digit(n % 16)]
    }
}

/// One byte as exactly two lowercase hexadecimal digits.
pub open spec fn hex_byte_seq(b: u8) -> Seq<u8> {
    seq![hex_digit((b / 16) as nat), hex_digit((b % 16) as nat)]
}

/// A 6-byte physical address as six hex octets separated by spaces.
pub open spec fn mac_seq(m: Seq<u8>) -> Seq<u8> {
    hex_seq(m[0] as nat) + seq![32u8] + hex_seq(m[1] as nat) + seq![32u8] + hex_seq(m[2] as nat)
        + seq![32u8] + hex_seq(m[3] as nat) + seq![32u8] + hex_seq(m[4] as nat) + seq![32u8]
        + hex_seq(m[5] as nat)
}

/// A payload as two-digit hex bytes separated by spaces.
pub open spec fn data_seq(d: Seq<u8>) -> Seq<u8>
    decreases d.len(),
{
    if d.len() == 0 {
        Seq::empty()
    } else if d.len() == 1 {
        hex_byte_seq(d[0])
    } else {
        hex_byte_seq(d[0]) + seq![32u8] + data_seq(d.subrange(1, d.len() as int))
    }
}

/// The symbolic name of a command, as ASCII bytes.
pub open spec fn command_name_seq(cmd: EtherCATCommand) -> Seq<u8> {
    match cmd {
        EtherCATCommand::NOP => seq![78u8, 79u8, 80u8],
        EtherCATCommand::APRD => seq![65u8, 80u8, 82u8, 68u8],
        EtherCATCommand::APWR => seq![65u8, 80u8, 87u8, 82u8],
        EtherCATCommand::APRW => seq![65u8, 80u8, 82u8, 87u8],
        EtherCATCommand::FPRD => seq![70u8, 80u8, 82u8, 68u8],
        EtherCATCommand::FPWR => seq![70u8, 80u8, 87u8, 82u8],
        EtherCATCommand::FPRW => seq![70u8, 80u8, 82u8, 87u8],
        EtherCATCommand::BRD => seq![66u8, 82u8, 68u8],
        EtherCATCommand::BWR => seq![66u8, 87u8, 82u8],
        EtherCATCommand::BRW => seq![66u8, 82u8, 87u8],
        EtherCATCommand::LRD => seq![76u8, 82u8, 68u8],
        EtherCATCommand::LWR => seq![76u8, 87u8, 82u8],
        EtherCATCommand::LRW => seq![76u8, 82u8, 87u8],
        EtherCATCommand::ARMW => seq![65u8, 82u8, 77u8, 87u8],
        EtherCATCommand::FRMW => seq![70u8, 82u8, 77u8, 87u8],
        EtherCATCommand::UNKNOWN => seq![85u8, 78u8, 75u8, 78u8, 79u8, 87u8, 78u8],
    }
}

/// The full record for one datagram: the frame's addresses, then the
/// datagram fields in the advertised column order, comma-separated.
pub open spec fn record_spec(
    dst_mac: Seq<u8>,
    src_mac: Seq<u8>,
    d: EtherCATDatagram,
    data: Seq<u8>,
) -> Seq<u8> {
    mac_seq(dst_mac) + seq![44u8] + mac_seq(src_mac) + seq![44u8] + command_name_seq(d.header.cmd)
        + seq![44u8] + dec_seq(d.header.index as nat) + seq![44u8] + dec_seq(
        d.header.slave_addr as nat,
    ) + seq![44u8] + dec_seq(d.header.offset_addr as nat) + seq![44u8] + dec_seq(
        d.header.length as nat,
    ) + seq![44u8] + dec_seq(d.header.round_trip as nat) + seq![44u8] + dec_seq(
        d.header.last_indicator as nat,
    ) + seq![44u8] + hex_seq(d.header.irq as nat) + seq![44u8] + dec_seq(d.wkc as nat)
        + seq![44u8] + data_seq(data)
}

/// Appends the decimal rendering of `n`.
fn push_dec(out: &mut Vec<u8>, n: u16)
    ensures
        final(out)@ == old(out)@ + dec_seq(n as nat),
    decreases n,
{
    if n >= 10 {
        push_dec(out, n / 10);
    }
    out.push(48 + (n % 10) as u8);
    proof {
        assert(out@ =~= old(out)@ + dec_seq(n as nat));
    }
}

/// Appends the minimal lowercase hex rendering of `n`.
fn push_hex(out: &mut Vec<u8>, n: u16)
    ensures
        final(out)@ == old(out)@ + hex_seq(n as nat),
    decreases n,
{
    if n >= 16 {
        push_hex(out, n / 16);
    }
    let d = (n % 16) as u8;
    out.push(
        if d < 10 {
            48 + d
        } else {
            87 + d
        },
    );
    proof {
        assert(out@ =~= old(out)@ + hex_seq(n as nat));
    }
}

/// Appends one byte as exactly two lowercase hex digits.
fn push_hex_byte(out: &mut Vec<u8>, b: u8)
    ensures
        final(out)@ == old(out)@ + hex_byte_seq(b),
{
    let hi = b / 16;
    let lo = b % 16;
    out.push(
        if hi < 10 {
            48 + hi
        } else {
            87 + hi
        },
    );
    out.push(
        if lo < 10 {
            48 + lo
        } else {
            87 + lo
        },
    );
    proof {
        assert(out@ =~= old(out)@ + hex_byte_seq(b));
    }
}

/// Appends a 6-byte address as six hex octets separated by spaces.
fn push_mac(out: &mut Vec<u8>, mac: &[u8])
    requires
        mac@.len() == 6,
    ensures
        final(out)@ == old(out)@ + mac_seq(mac@),
{
    push_hex(out, mac[0] as u16);
    out.push(32u8);
    push_hex(out, mac[1] as u16);
    out.push(32u8);
    push_hex(out, mac[2] as u16);
    out.push(32u8);
    push_hex(out, mac[3] as u16);
    out.push(32u8);
    push_hex(out, mac[4] as u16);
    out.push(32u8);
    push_hex(out, mac[5] as u16);
    proof {
        assert(out@ =~= old(out)@ + mac_seq(mac@));
    }
}

/// Appends `len` payload bytes starting at `start` as space-separated
/// two-digit hex bytes.
fn push_data(out: &mut Vec<u8>, buf: &[u8], start: usize, len: usize)
    requires
        start + len <= buf@.len(),
    ensures
        final(out)@ == old(out)@ + data_seq(buf@.subrange(start as int, start + len)),
    decreases len,
{
    let ghost piece = buf@.subrange(start as int, start + len);
    if len == 0 {
        proof {
            assert(out@ =~= old(out)@ + data_seq(piece));
        }
    } else if len == 1 {
        push_hex_byte(out, buf[start]);
        proof {
            assert(piece[0] == buf@[start as int]);
            assert(out@ =~= old(out)@ + data_seq(piece));
        }
    } else {
        push_hex_byte(out, buf[start]);
        out.push(32u8);
        push_data(out, buf, start + 1, len - 1);
        proof {
            assert(piece[0] == buf@[start as int]);
            assert(piece.subrange(1, piece.len() as int) =~= buf@.subrange(
                start + 1,
                start + len,
            ));
            assert(out@ =~= old(out)@ + data_seq(piece));
        }
    }
}

/// Appends the symbolic name of a command.
fn push_command_name(out: &mut Vec<u8>, cmd: EtherCATCommand)
    ensures
        final(out)@ == old(out)@ + command_name_seq(cmd),
{
    match cmd {
        EtherCATCommand::NOP => {
            out.push(78u8);
            out.push(79u8);
            out.push(80u8);
        },
        EtherCATCommand::APRD => {
            out.push(65u8);
            out.push(80u8);
            out.push(82u8);
            out.push(68u8);
        },
        EtherCATCommand::APWR => {
            out.push(65u8);
            out.push(80u8);
            out.push(87u8);
            out.push(82u8);
        },
        EtherCATCommand::APRW => {
            out.push(65u8);
            out.push(80u8);
            out.push(82u8);
            out.push(87u8);
        },
        EtherCATCommand::FPRD => {
            out.push(70u8);
            out.push(80u8);
            out.push(82u8);
            out.push(68u8);
        },
        EtherCATCommand::FPWR => {
            out.push(70u8);
            out.push(80u8);
            out.push(87u8);
            out.push(82u8);
        },
        EtherCATCommand::FPRW => {
            out.push(70u8);
            out.push(80u8);
            out.push(82u8);
            out.push(87u8);
        },
        EtherCATCommand::BRD => {
            out.push(66u8);
            out.push(82u8);
            out.push(68u8);
        },
        EtherCATCommand::BWR => {
            out.push(66u8);
            out.push(87u8);
            out.push(82u8);
        },
        EtherCATCommand::BRW => {
            out.push(66u8);
            out.push(82u8);
            out.push(87u8);
        },
        EtherCATCommand::LRD => {
            out.push(76u8);
            out.push(82u8);
            out.push(68u8);
        },
        EtherCATCommand::LWR => {
            out.push(76u8);
            out.push(87u8);
            out.push(82u8);
        },
        EtherCATCommand::LRW => {
            out.push(76u8);
            out.push(82u8);
            out.push(87u8);
        },
        EtherCATCommand::ARMW => {
            out.push(65u8);
            out.push(82u8);
            out.push(77u8);
            out.push(87u8);
        },
        EtherCATCommand::FRMW => {
            out.push(70u8);
            out.push(82u8);
            out.push(77u8);
            out.push(87u8);
        },
        EtherCATCommand::UNKNOWN => {
            out.push(85u8);
            out.push(78u8);
            out.push(75u8);
            out.push(78u8);
            out.push(79u8);
            out.push(87u8);
            out.push(78u8);
        },
    }
    proof {
        assert(out@ =~= old(out)@ + command_name_seq(cmd));
    }
}

/// Renders one datagram, with its frame's addresses, as one CSV record.
/// The payload bytes are read from `buf` at the datagram's own offset.
#[verifier::rlimit(50)]
pub fn format_record(buf: &[u8], dst_mac: &[u8], src_mac: &[u8], d: &EtherCATDatagram) -> (r: Vec<
    u8,
>)
    requires
        dst_mac@.len() == 6,
        src_mac@.len() == 6,
        d.data_start + d.header.length <= buf@.len(),
    ensures
        r@ == record_spec(
            dst_mac@,
            src_mac@,
            *d,
            buf@.subrange(d.data_start as int, d.data_start + d.header.length),
        ),
{
    let mut out: Vec<u8> = Vec::new();
    push_mac(&mut out, dst_mac);
    out.push(44u8);
    push_mac(&mut out, src_mac);
    out.push(44u8);
    push_command_name(&mut out, d.header.cmd);
    out.push(44u8);
    push_dec(&mut out, d.header.index as u16);
    out.push(44u8);
    push_dec(&mut out, d.header.slave_addr);
    out.push(44u8);
    push_dec(&mut out, d.header.offset_addr);
    out.push(44u8);
    push_dec(&mut out, d.header.length);
    out.push(44u8);
    push_dec(&mut out, d.header.round_trip as u16);
    out.push(44u8);
    push_dec(&mut out, d.header.last_indicator as u16);
    out.push(44u8);
    push_hex(&mut out, d.header.irq);
    out.push(44u8);
    push_dec(&mut out, d.wkc);
    out.push(44u8);
    push_data(&mut out, buf, d.data_start, d.header.length as usize);
    proof {
        assert(out@ =~= record_spec(
            dst_mac@,
            src_mac@,
            *d,
            buf@.subrange(d.data_start as int, d.data_start + d.header.length),
        ));
    }
    out
}

} // verus!
