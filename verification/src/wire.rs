//! The binary serial protocol and the single physical serial channel.
//!
//! A command frame is three raw bytes `[opcode, port_id, arg]` with no
//! framing delimiter, no checksum and no acknowledgement. The channel
//! appends each frame whole, so two frames are never interleaved
//! byte-for-byte.

use vstd::prelude::*;
use crate::controller::ControllerError;

verus! {

/// One fixed-size command frame. `opcode` selects the device class at the
/// hardware controller, `port_id` the physical port, and `arg` carries an
/// on/off sentinel or a mapped brightness byte.
#[derive(Clone, Copy, PartialEq, Eq, Structural, Debug)]
pub struct Cmd {
    pub opcode: u8,
    pub port_id: u8,
    pub arg: u8,
}

impl Cmd {
    /// The 3-byte wire form of the frame.
    pub open spec fn wire(self) -> Seq<u8> {
        seq![self.opcode, self.port_id, self.arg]
    }

    pub fn new(opcode: u8, port_id: u8, arg: u8) -> (c: Cmd)
        ensures
            c == (Cmd { opcode, port_id, arg }),
    {
        Cmd { opcode, port_id, arg }
    }
}

/// The shared serial channel. `sent` is the exact byte stream handed to the
/// physical port so far; the unverified shell drains it to the real device.
/// `connected` models the health of the underlying connection: a write on a
/// dead channel is lost and reported as a transport failure, never retried.
pub struct SerialChannel {
    pub connected: bool,
    pub sent: Vec<u8>,
}

impl SerialChannel {
    pub fn new() -> (c: SerialChannel)
        ensures
            c.connected,
            c.sent@ == Seq::<u8>::empty(),
    {
        SerialChannel { connected: true, sent: Vec::new() }
    }

    /// Serializes `cmd` to its 3-byte wire form and writes it. The whole
    /// frame goes out or none of it does; a failed write is reported and
    /// lost, and the channel's health never changes as a side effect.
    pub fn serial_write(&mut self, cmd: Cmd) -> (r: Result<(), ControllerError>)
        ensures
            final(self).connected == old(self).connected,
            old(self).connected ==> final(self).sent@ == old(self).sent@ + cmd.wire() && r is Ok,
            !old(self).connected ==> final(self).sent@ == old(self).sent@
                && r matches Err(ControllerError::TransportFailure),
    {
        if self.connected {
            self.sent.push(cmd.opcode);
            self.sent.push(cmd.port_id);
            self.sent.push(cmd.arg);
            proof {
                assert(self.sent@ =~= old(self).sent@ + cmd.wire());
            }
            Ok(())
        } else {
            Err(ControllerError::TransportFailure)
        }
    }
}

} // verus!
