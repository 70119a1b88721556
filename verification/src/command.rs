//! The EtherCAT command codec: a total, bidirectional mapping between
//! the 4-bit numeric command code of a datagram and its symbolic name.

use vstd::prelude::*;

verus! {

/// Symbolic EtherCAT datagram commands. Codes 0 through 14 map to the
/// named commands in this order; every other code decodes to `UNKNOWN`.
#[derive(Debug, Clone, Copy, PartialEq, Eq, Structural)]
pub enum EtherCATCommand {
    NOP,
    APRD,
    APWR,
    APRW,
    FPRD,
    FPWR,
    FPRW,
    BRD,
    BWR,
    BRW,
    LRD,
    LWR,
    LRW,
    ARMW,
    FRMW,
    UNKNOWN,
}

/// The total decode direction of the codec: command code to symbolic command.
pub open spec fn command_decode_spec(code: u8) -> EtherCATCommand {
    if code == 0 {
        EtherCATCommand::NOP
    } else if code == 1 {
        EtherCATCommand::APRD
    } else if code == 2 {
        EtherCATCommand::APWR
    } else if code == 3 {
        EtherCATCommand::APRW
    } else if code == 4 {
        EtherCATCommand::FPRD
    } else if code == 5 {
        EtherCATCommand::FPWR
    } else if code == 6 {
        EtherCATCommand::FPRW
    } else if code == 7 {
        EtherCATCommand::BRD
    } else if code == 8 {
        EtherCATCommand::BWR
    } else if code == 9 {
        EtherCATCommand::BRW
    } else if code == 10 {
        EtherCATCommand::LRD
    } else if code == 11 {
        EtherCATCommand::LWR
    } else if code == 12 {
        EtherCATCommand::LRW
    } else if code == 13 {
        EtherCATCommand::ARMW
    } else if code == 14 {
        EtherCATCommand::FRMW
    } else {
        EtherCATCommand::UNKNOWN
    }
}

/// The encode direction of the codec: each named command has exactly one
/// code; `UNKNOWN` has no valid encoding.
pub open spec fn command_encode_spec(cmd: EtherCATCommand) -> Option<u8> {
    match cmd {
        EtherCATCommand::NOP => Some(0u8),
        EtherCATCommand::APRD => Some(1u8),
        EtherCATCommand::APWR => Some(2u8),
        EtherCATCommand::APRW => Some(3u8),
        EtherCATCommand::FPRD => Some(4u8),
        EtherCATCommand::FPWR => Some(5u8),
        EtherCATCommand::FPRW => Some(6u8),
        EtherCATCommand::BRD => Some(7u8),
        EtherCATCommand::BWR => Some(8u8),
        EtherCATCommand::BRW => Some(9u8),
        EtherCATCommand::LRD => Some(10u8),
        EtherCATCommand::LWR => Some(11u8),
        EtherCATCommand::LRW => Some(12u8),
        EtherCATCommand::ARMW => Some(13u8),
        EtherCATCommand::FRMW => Some(14u8),
        EtherCATCommand::UNKNOWN => None,
    }
}

impl EtherCATCommand {
    /// Decodes a command byte; total over all byte values.
    pub fn decode(code: u8) -> (r: EtherCATCommand)
        ensures
            r == command_decode_spec(code),
    {
        match code {
            0 => EtherCATCommand::NOP,
            1 => EtherCATCommand::APRD,
            2 => EtherCATCommand::APWR,
            3 => EtherCATCommand::APRW,
            4 => EtherCATCommand::FPRD,
            5 => EtherCATCommand::FPWR,
            6 => EtherCATCommand::FPRW,
            7 => EtherCATCommand::BRD,
            8 => EtherCATCommand::BWR,
            9 => EtherCATCommand::BRW,
            10 => EtherCATCommand::LRD,
            11 => EtherCATCommand::LWR,
            12 => EtherCATCommand::LRW,
            13 => EtherCATCommand::ARMW,
            14 => EtherCATCommand::FRMW,
            _ => EtherCATCommand::UNKNOWN,
        }
    }

    /// Encodes a command back to its numeric code; `UNKNOWN` has none.
    pub fn encode(self) -> (r: Option<u8>)
        ensures
            r == command_encode_spec(self),
    {
        match self {
            EtherCATCommand::NOP => Some(0u8),
            EtherCATCommand::APRD => Some(1u8),
            EtherCATCommand::APWR => Some(2u8),
            EtherCATCommand::APRW => Some(3u8),
            EtherCATCommand::FPRD => Some(4u8),
            EtherCATCommand::FPWR => Some(5u8),
            EtherCATCommand::FPRW => Some(6u8),
            EtherCATCommand::BRD => Some(7u8),
            EtherCATCommand::BWR => Some(8u8),
            EtherCATCommand::BRW => Some(9u8),
            EtherCATCommand::LRD => Some(10u8),
            EtherCATCommand::LWR => Some(11u8),
            EtherCATCommand::LRW => Some(12u8),
            EtherCATCommand::ARMW => Some(13u8),
            EtherCATCommand::FRMW => Some(14u8),
            EtherCATCommand::UNKNOWN => None,
        }
    }
}

/// Law: over codes 0 through 14 the codec is a bijection (decode is the
/// exact inverse of encode, in both directions), and every code above 14
/// decodes to `UNKNOWN`, so decoding is total and never fails.
pub proof fn lemma_command_codec_bijective()
    ensures
        forall|code: u8|
            code <= 14 ==> command_encode_spec(#[trigger] command_decode_spec(code)) == Some(code),
        forall|code: u8| code > 14 ==> #[trigger] command_decode_spec(code) == EtherCATCommand::UNKNOWN,
        forall|cmd: EtherCATCommand|
            cmd != EtherCATCommand::UNKNOWN ==> #[trigger] command_encode_spec(cmd) is Some
                && command_decode_spec(command_encode_spec(cmd)->Some_0) == cmd,
{
}

} // verus!
