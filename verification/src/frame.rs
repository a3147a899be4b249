//! CAN frames as plain values, and the split of an identifier into function
//! code and node id.

use vstd::prelude::*;

verus! {

/// Identifier base of an NMT state broadcast.
pub const COB_NMT_STATE: u16 = 0x700;

/// Identifier base of an SDO server response.
pub const COB_SDO_RESPONSE: u16 = 0x580;

/// Identifier base of the first transmit PDO.
pub const COB_TPDO: u16 = 0x180;

/// The greatest identifier of a standard frame.
pub const MAX_STANDARD_ID: u16 = 0x7FF;

/// The greatest number of data bytes in a frame.
pub const MAX_FRAME_DATA: usize = 8;

/// A frame to be put on the bus.
#[derive(Debug, Clone, PartialEq, Eq)]
pub struct Frame {
    pub cob_id: u16,
    pub data: Vec<u8>,
}

impl Frame {
    /// The identifier and the data bytes of this frame.
    pub open spec fn view(&self) -> (u16, Seq<u8>) {
        (self.cob_id, self.data@)
    }

    /// Whether the bus can carry this frame: an 11-bit identifier and at most
    /// eight data bytes.
    pub open spec fn transmittable(&self) -> bool {
        self.cob_id <= MAX_STANDARD_ID && self.data@.len() <= MAX_FRAME_DATA
    }

    /// Whether the bus can carry this frame.
    pub fn is_transmittable(&self) -> (ok: bool)
        ensures
            ok == self.transmittable(),
    {
        self.cob_id <= MAX_STANDARD_ID && self.data.len() <= MAX_FRAME_DATA
    }
}

/// The identifiers and data of a sequence of frames.
pub open spec fn frames_view(frames: Seq<Frame>) -> Seq<(u16, Seq<u8>)> {
    Seq::new(frames.len(), |i: int| frames[i]@)
}

/// The node id that an identifier carries: its low seven bits.
pub open spec fn node_id_of(cob_id: u32) -> u8 {
    (cob_id % 0x80) as u8
}

/// The function code that an identifier carries: bits 7 to 10, in place.
pub open spec fn function_code_of(cob_id: u32) -> u32 {
    ((cob_id / 0x80) % 0x10 * 0x80) as u32
}

/// What an identifier base and a node id make: the base with the id's bits set.
pub open spec fn cob_with_node(base: u16, node_id: u8) -> u16 {
    base | (node_id as u16)
}

/// What a received identifier asks of the node `own_id`.
#[derive(Debug, Clone, Copy, PartialEq, Eq, Structural)]
pub enum FrameKind {
    /// A network management command.
    Nmt,
    /// SYNC: transmit PDOs are due.
    Sync,
    /// An emergency object of this node.
    Emcy,
    /// The receive PDO of this number, 1 to 4.
    Rpdo(u16),
    /// An SDO client request.
    Sdo,
    /// Not for this node.
    Ignored,
}

/// The dispatch table of received identifiers.
pub open spec fn frame_kind(cob_id: u32, own_id: u8) -> FrameKind {
    let node = node_id_of(cob_id);
    let code = function_code_of(cob_id);
    if node == 0 {
        if code == 0x000 {
            FrameKind::Nmt
        } else if code == 0x080 {
            FrameKind::Sync
        } else {
            FrameKind::Ignored
        }
    } else if node == own_id {
        if code == 0x080 {
            FrameKind::Emcy
        } else if code == 0x200 {
            FrameKind::Rpdo(1)
        } else if code == 0x300 {
            FrameKind::Rpdo(2)
        } else if code == 0x400 {
            FrameKind::Rpdo(3)
        } else if code == 0x500 {
            FrameKind::Rpdo(4)
        } else if code == 0x600 {
            FrameKind::Sdo
        } else {
            FrameKind::Ignored
        }
    } else {
        FrameKind::Ignored
    }
}

/// Sorts a received identifier by the dispatch table.
pub fn classify(cob_id: u32, own_id: u8) -> (kind: FrameKind)
    ensures
        kind == frame_kind(cob_id, own_id),
        kind matches FrameKind::Rpdo(n) ==> 1 <= n <= 4,
{
    let node: u8 = (cob_id % 0x80) as u8;
    let code: u32 = (cob_id / 0x80) % 0x10 * 0x80;
    if node == 0 {
        if code == 0x000 {
            FrameKind::Nmt
        } else if code == 0x080 {
            FrameKind::Sync
        } else {
            FrameKind::Ignored
        }
    } else if node == own_id {
        if code == 0x080 {
            FrameKind::Emcy
        } else if code == 0x200 {
            FrameKind::Rpdo(1)
        } else if code == 0x300 {
            FrameKind::Rpdo(2)
        } else if code == 0x400 {
            FrameKind::Rpdo(3)
        } else if code == 0x500 {
            FrameKind::Rpdo(4)
        } else if code == 0x600 {
            FrameKind::Sdo
        } else {
            FrameKind::Ignored
        }
    } else {
        FrameKind::Ignored
    }
}

} // verus!
