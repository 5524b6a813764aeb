//! The transmission protocol for position updates.
//!
//! One message per successfully tracked frame: the position component is a
//! binary32 value sent as its 4-byte big-endian encoding, and any
//! buffered-but-unsent output is discarded first, so the receiver never sees
//! a mixture of frames. This module fixes the wire format and that
//! clear-then-write order as a plan of port commands; performing them on the
//! device, with its bounded write timeout, is the caller's part.

use vstd::prelude::*;

verus! {

/// The big-endian byte order of a 32-bit word, most significant byte first.
pub open spec fn be_bytes(bits: u32) -> Seq<u8> {
    seq![
        (bits >> 24) as u8,
        ((bits >> 16) & 0xff) as u8,
        ((bits >> 8) & 0xff) as u8,
        (bits & 0xff) as u8,
    ]
}

/// One primitive of the serial device, in the order it must be performed.
#[derive(Debug, Clone, PartialEq, Eq)]
pub enum PortCommand {
    /// Discard everything buffered but not yet sent.
    Clear,
    /// Write these bytes, bounded by the device's write timeout.
    Write(Vec<u8>),
}

/// Encodes a position component, given as the bit pattern of its binary32
/// value, into the fixed 4-byte big-endian wire format.
pub fn encode_position(bits: u32) -> (bytes: Vec<u8>)
    ensures
        bytes@ == be_bytes(bits),
        bytes@.len() == 4,
{
    proof {
        assert((bits >> 24) < 256 && ((bits >> 16) & 0xff) < 256 && ((bits >> 8) & 0xff) < 256
            && (bits & 0xff) < 256) by (bit_vector);
    }
    let mut bytes: Vec<u8> = Vec::new();
    bytes.push((bits >> 24) as u8);
    bytes.push(((bits >> 16) & 0xff) as u8);
    bytes.push(((bits >> 8) & 0xff) as u8);
    bytes.push((bits & 0xff) as u8);
    proof {
        assert(bytes@ =~= be_bytes(bits));
    }
    bytes
}

/// The transmission plan for one position update: exactly one buffer clear,
/// then exactly one write of the 4-byte big-endian encoding — the output is
/// cleared before every write, never after, never skipped.
pub fn send_plan(bits: u32) -> (plan: Vec<PortCommand>)
    ensures
        plan@.len() == 2,
        plan@[0] == PortCommand::Clear,
        plan@[1] matches PortCommand::Write(bytes) && bytes@ == be_bytes(bits),
{
    let mut plan: Vec<PortCommand> = Vec::new();
    plan.push(PortCommand::Clear);
    plan.push(PortCommand::Write(encode_position(bits)));
    plan
}

} // verus!
