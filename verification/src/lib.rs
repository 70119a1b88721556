//! Verified decoder for EtherCAT frames carried in Ethernet frames.
//!
//! The decoder chain strips the Ethernet header, decodes the EtherCAT
//! frame header, walks the datagrams of the frame until the terminating
//! flag, and renders one record per datagram.

pub mod command;
pub mod datagram;
pub mod emit;
pub mod frame;

use vstd::prelude::*;

verus! {

/// Reads a 16-bit little-endian value from two bytes.
pub open spec fn le16_spec(lo: u8, hi: u8) -> u16 {
    (lo as u16) | ((hi as u16) << 8)
}

/// Reads a 16-bit big-endian (network order) value from two bytes.
pub open spec fn be16_spec(hi: u8, lo: u8) -> u16 {
    ((hi as u16) << 8) | (lo as u16)
}

/// Everything that can go wrong while decoding one captured frame.
#[derive(Debug, Clone, Copy, PartialEq, Eq, Structural)]
pub enum DecodeError {
    /// A decode step needed more bytes than the buffer holds.
    TruncatedInput,
    /// The Ethernet frame does not carry an EtherCAT payload.
    NotEtherCat,
}

fn le16(lo: u8, hi: u8) -> (r: u16)
    ensures
        r == le16_spec(lo, hi),
{
    (lo as u16) | ((hi as u16) << 8)
}

fn be16(hi: u8, lo: u8) -> (r: u16)
    ensures
        r == be16_spec(hi, lo),
{
    ((hi as u16) << 8) | (lo as u16)
}

} // verus!
