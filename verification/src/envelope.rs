//! The per-message envelope of a batched call: the caller's scatter/gather
//! buffers, the per-message flags, and the transferred-length field the OS
//! fills in.

use vstd::prelude::*;
use crate::flags::MsgFlags;

verus! {

/// The mathematical value of an envelope: the byte sequences of its buffers,
/// the raw bits of its flag set, and the transferred length last stored for
/// it.
pub ghost struct EnvView {
    pub bufs: Seq<Seq<u8>>,
    pub flag_bits: int,
    pub transferred: int,
}

/// One per-message envelope. The buffers are the scatter/gather regions of
/// one logical datagram; their count becomes the envelope's scatter/gather
/// count in the raw OS structure. `msg_len` is the byte count the OS
/// reported for this envelope in the most recent completed call, zero before
/// any call.
///
/// The peer-address and ancillary-control fields of the raw OS structure are
/// not represented: this version never sets them, and the unverified shim
/// that builds the raw structure leaves them null, a deliberate limit of
/// scope rather than an oversight.
#[derive(Debug)]
pub struct MMsgHdr {
    pub buffers: Vec<Vec<u8>>,
    pub flags: MsgFlags,
    pub msg_len: u32,
}

impl View for MMsgHdr {
    type V = EnvView;

    open spec fn view(&self) -> EnvView {
        EnvView {
            bufs: self.buffers@.map_values(|b: Vec<u8>| b@),
            flag_bits: self.flags.bits as int,
            transferred: self.msg_len as int,
        }
    }
}

impl MMsgHdr {
    /// Builds an envelope over the given buffers with the given per-message
    /// flags. An empty buffer list is legal and stands for a zero-length
    /// message; the transferred length starts at zero.
    pub fn new(buffers: Vec<Vec<u8>>, flags: MsgFlags) -> (r: MMsgHdr)
        ensures
            r.buffers@ == buffers@,
            r.flags == flags,
            r.msg_len == 0,
    {
        MMsgHdr { buffers, flags, msg_len: 0 }
    }

    /// The byte count the OS reported for this envelope after the most
    /// recent batch call that included it; zero before any such call, stale
    /// otherwise.
    pub fn msg_len(&self) -> (r: usize)
        ensures
            r == self.msg_len as usize,
    {
        self.msg_len as usize
    }

    /// The number of scatter/gather buffers of this envelope.
    pub fn buffer_count(&self) -> (r: usize)
        ensures
            r == self.buffers@.len(),
    {
        self.buffers.len()
    }
}

} // verus!
