//! The CiA-301 frame engine of one node: dispatch of received frames, NMT,
//! SDO, receive PDOs into the object dictionary and transmit PDOs on SYNC.

use vstd::prelude::*;
use vstd::slice::slice_subrange;
use crate::eds::{DataType, DataValue, EDSData};
use crate::frame::{
    COB_NMT_STATE, COB_SDO_RESPONSE, COB_TPDO, Frame, FrameKind, classify, cob_with_node,
    frame_kind, frames_view,
};
use crate::nmt::{NmtState, create_nmt_frame, nmt_addressed, nmt_outcome, process_nmt_command};
use crate::od::{Entries, after_write, same_layout, value_at};
use crate::sdo::{sdo_outcome, sdo_response};

verus! {

/// Index of the mapping table of the first receive PDO.
pub const RPDO_MAPPING: u16 = 0x1600;

/// Index of the communication parameters of the first transmit PDO.
pub const TPDO_COMMUNICATION: u16 = 0x1800;

/// Index of the mapping table of the first transmit PDO.
pub const TPDO_MAPPING: u16 = 0x1A00;

/// The number of transmit PDOs that a SYNC considers.
pub const TPDO_COUNT: u16 = 8;

/// The transmission type of a PDO that is sent on every SYNC.
pub const TRANSMIT_ON_SYNC: u8 = 1;

/// One record of a PDO mapping table.
#[derive(Debug, Clone, Copy, PartialEq, Eq, Structural)]
pub struct Mapping {
    pub index: u16,
    pub sub_index: u8,
    pub bit_length: u8,
}

impl Mapping {
    /// The record that a table entry holds: index in bits 31..16, sub-index in
    /// bits 15..8, bit length in bits 7..0.
    pub open spec fn of(record: u32) -> Mapping {
        Mapping {
            index: (record / 0x1_0000) as u16,
            sub_index: (record / 0x100 % 0x100) as u8,
            bit_length: (record % 0x100) as u8,
        }
    }

    /// Whether this record maps a value of type `tag`: the type has a wire form
    /// of just the record's bit length.
    pub open spec fn fits(self, tag: DataType) -> bool {
        tag.on_wire() && self.bit_length == 8 * tag.width()
    }

    /// The record that a table entry holds.
    pub fn decode(record: u32) -> (mapping: Mapping)
        ensures
            mapping == Mapping::of(record),
    {
        Mapping {
            index: (record / 0x1_0000) as u16,
            sub_index: (record / 0x100 % 0x100) as u8,
            bit_length: (record % 0x100) as u8,
        }
    }

    /// Whether this record maps a value of type `tag`.
    pub fn maps(&self, tag: DataType) -> (fits: bool)
        ensures
            fits == self.fits(tag),
    {
        let width = tag.wire_width();
        width != 0 && self.bit_length as usize == 8 * width
    }
}

/// The number of records that the mapping table `table` declares: its sub-index
/// 0, where that is an Unsigned8.
pub open spec fn mapping_count(entries: Entries, table: u16) -> Option<u8> {
    match value_at(entries, table, 0) {
        Some(DataValue::Unsigned8(count)) => Some(count),
        _ => None,
    }
}

/// The records of the mapping table `table` at sub-indices 1 to `count`, in
/// ascending order; a sub-index that holds no Unsigned32 is passed over.
pub open spec fn mapping_records(entries: Entries, table: u16, count: nat) -> Seq<u32>
    decreases count,
{
    if count == 0 || count > 255 {
        Seq::empty()
    } else {
        let before = mapping_records(entries, table, (count - 1) as nat);
        match value_at(entries, table, count as u8) {
            Some(DataValue::Unsigned32(record)) => before.push(record),
            _ => before,
        }
    }
}

/// The dictionary after the bytes of `data` were handed to the entries that
/// `records` name, in order. A record whose entry is missing, or of a type that
/// the record does not map, is passed over and takes no bytes. When fewer bytes
/// are left than a record needs, the rest is dropped.
pub open spec fn rpdo_apply(entries: Entries, records: Seq<u32>, data: Seq<u8>) -> Entries
    decreases records.len(),
{
    if records.len() == 0 {
        entries
    } else {
        let mapping = Mapping::of(records[0]);
        let rest = records.drop_first();
        match value_at(entries, mapping.index, mapping.sub_index) {
            None => rpdo_apply(entries, rest, data),
            Some(stored) => if data.len() == 0 {
                entries
            } else if !mapping.fits(stored.tag()) {
                rpdo_apply(entries, rest, data)
            } else {
                match DataValue::from_wire(stored.tag(), data) {
                    None => entries,
                    Some(value) => rpdo_apply(
                        after_write(entries, mapping.index, mapping.sub_index, value),
                        rest,
                        data.skip(stored.tag().width() as int),
                    ),
                }
            },
        }
    }
}

/// The dictionary after receive PDO number `rpdo_number` brought `data`.
pub open spec fn rpdo_outcome(entries: Entries, rpdo_number: u16, data: Seq<u8>) -> Entries {
    let table = (RPDO_MAPPING + rpdo_number - 1) as u16;
    let count = match mapping_count(entries, table) {
        Some(count) => count as nat,
        None => 0,
    };
    rpdo_apply(entries, mapping_records(entries, table, count), data)
}

/// The bytes that the record `record` contributes to a transmit PDO: the value
/// of the entry it names, where the record maps the entry's type; none
/// otherwise.
pub open spec fn mapped_bytes(entries: Entries, record: u32) -> Seq<u8> {
    let mapping = Mapping::of(record);
    match value_at(entries, mapping.index, mapping.sub_index) {
        Some(value) => if mapping.fits(value.tag()) {
            value.to_wire()
        } else {
            Seq::empty()
        },
        None => Seq::empty(),
    }
}

/// The payload of a transmit PDO with the mapping `records`: what each record
/// contributes, in order.
pub open spec fn tpdo_payload(entries: Entries, records: Seq<u32>) -> Seq<u8>
    decreases records.len(),
{
    if records.len() == 0 {
        Seq::empty()
    } else {
        tpdo_payload(entries, records.drop_last()) + mapped_bytes(entries, records.last())
    }
}

/// Whether transmit PDO `k` is enabled: sub-index 1 of its communication
/// parameters is an Unsigned32 with bit 31 clear.
pub open spec fn tpdo_enabled(entries: Entries, k: u16) -> Option<bool> {
    match value_at(entries, (TPDO_COMMUNICATION + k) as u16, 1) {
        Some(DataValue::Unsigned32(cob)) => Some(cob < 0x8000_0000),
        _ => None,
    }
}

/// The transmission type of transmit PDO `k`: sub-index 2 of its communication
/// parameters, where that is an Unsigned8.
pub open spec fn tpdo_transmission_type(entries: Entries, k: u16) -> Option<u8> {
    match value_at(entries, (TPDO_COMMUNICATION + k) as u16, 2) {
        Some(DataValue::Unsigned8(kind)) => Some(kind),
        _ => None,
    }
}

/// The mapping of transmit PDO `k`, where it is to be sent on a SYNC: it is
/// enabled, its transmission type is 1, and its table declares a count.
pub open spec fn tpdo_due(entries: Entries, k: u16) -> Option<Seq<u32>> {
    if tpdo_enabled(entries, k) == Some(true) && tpdo_transmission_type(entries, k) == Some(
        TRANSMIT_ON_SYNC,
    ) {
        match mapping_count(entries, (TPDO_MAPPING + k) as u16) {
            Some(count) => Some(mapping_records(entries, (TPDO_MAPPING + k) as u16, count as nat)),
            None => None,
        }
    } else {
        None
    }
}

/// The identifier of transmit PDO `k` of the node `node_id`.
pub open spec fn tpdo_cob(node_id: u8, k: u16) -> u16 {
    cob_with_node((COB_TPDO + k * 0x100) as u16, node_id)
}

/// The frames that a SYNC draws from the transmit PDOs below `upto`, in
/// ascending order: one for each that is due with at least one mapping record.
pub open spec fn sync_frames(entries: Entries, node_id: u8, upto: nat) -> Seq<(u16, Seq<u8>)>
    decreases upto,
{
    if upto == 0 || upto > TPDO_COUNT {
        Seq::empty()
    } else {
        let k = (upto - 1) as u16;
        let before = sync_frames(entries, node_id, (upto - 1) as nat);
        match tpdo_due(entries, k) {
            Some(records) => if records.len() > 0 {
                before.push((tpdo_cob(node_id, k), tpdo_payload(entries, records)))
            } else {
                before
            },
            None => before,
        }
    }
}

/// What an NMT payload does to the node `node_id` in state `state`: the state
/// after it and the frame that reports it. A payload that is malformed or
/// addressed to another node does nothing. A command changes the state, and is
/// reported when the state changed or is Initializing.
pub open spec fn nmt_effect(node_id: u8, state: NmtState, data: Seq<u8>) -> (
    NmtState,
    Option<(u16, Seq<u8>)>,
) {
    if !nmt_addressed(node_id, data) {
        (state, None)
    } else {
        match nmt_outcome(node_id, state, data) {
            Ok(next) => if next != state || next == NmtState::Initializing {
                (next, Some((cob_with_node(COB_NMT_STATE, node_id), seq![next.code()])))
            } else {
                (state, None)
            },
            Err(_) => (state, None),
        }
    }
}

/// What a node is, as far as frames are concerned.
pub struct NodeView {
    pub id: u8,
    pub nmt_state: NmtState,
    pub entries: Entries,
}

/// What a received frame does to a node: the node after it, and the frames it
/// sends in answer, in order.
pub open spec fn frame_outcome(node: NodeView, cob_id: u32, data: Seq<u8>) -> (
    NodeView,
    Seq<(u16, Seq<u8>)>,
) {
    match frame_kind(cob_id, node.id) {
        FrameKind::Nmt => {
            let (state, report) = nmt_effect(node.id, node.nmt_state, data);
            (
                NodeView { nmt_state: state, ..node },
                match report {
                    Some(frame) => seq![frame],
                    None => Seq::empty(),
                },
            )
        },
        FrameKind::Sync => (node, sync_frames(node.entries, node.id, TPDO_COUNT as nat)),
        FrameKind::Rpdo(n) => (
            NodeView { entries: rpdo_outcome(node.entries, n, data), ..node },
            Seq::empty(),
        ),
        FrameKind::Sdo => match sdo_outcome(node.entries, data) {
            Ok((entries, response)) => (
                NodeView { entries, ..node },
                seq![(cob_with_node(COB_SDO_RESPONSE, node.id), response)],
            ),
            Err(_) => (node, Seq::empty()),
        },
        _ => (node, Seq::empty()),
    }
}

/// One CANopen node: its id, its object dictionary and its NMT state.
pub struct Node {
    pub id: u8,
    pub eds_data: EDSData,
    pub nmt_state: NmtState,
}

impl Node {
    /// What this node is, as far as frames are concerned.
    pub open spec fn view(&self) -> NodeView {
        NodeView { id: self.id, nmt_state: self.nmt_state, entries: self.eds_data.od@ }
    }

    /// A node with the id `node_id` and the dictionary of `eds_data`, in NMT
    /// state Initializing.
    pub fn new(node_id: u8, eds_data: EDSData) -> (node: Self)
        ensures
            node.id == node_id,
            node.eds_data == eds_data,
            node.nmt_state == NmtState::Initializing,
    {
        Self { id: node_id, eds_data, nmt_state: NmtState::Initializing }
    }

    /// Handles one received frame: identifier `cob_id`, payload `data`. Returns
    /// the frames to send in answer, in the order in which they are to be sent.
    pub fn handle_frame(&mut self, cob_id: u32, data: &[u8]) -> (frames: Vec<Frame>)
        ensures
            final(self)@ == frame_outcome(old(self)@, cob_id, data@).0,
            frames_view(frames@) == frame_outcome(old(self)@, cob_id, data@).1,
            same_layout(old(self).eds_data.od@, final(self).eds_data.od@),
            final(self).eds_data.file_info == old(self).eds_data.file_info,
            final(self).eds_data.device_info == old(self).eds_data.device_info,
    {
        let mut frames: Vec<Frame> = Vec::new();
        match classify(cob_id, self.id) {
            FrameKind::Nmt => {
                if let Some(frame) = self.parse_nmt_command(data) {
                    frames.push(frame);
                } else {
                    assert(frames_view(frames@) =~= Seq::empty());
                }
            },
            FrameKind::Sync => {
                frames = self.parse_sync();
            },
            FrameKind::Emcy => {
                self.parse_emcy();
            },
            FrameKind::Rpdo(n) => {
                self.parse_rpdo(n, data);
            },
            FrameKind::Sdo => {
                if let Some(frame) = self.parse_sdo_client_request(data) {
                    frames.push(frame);
                } else {
                    assert(frames_view(frames@) =~= Seq::empty());
                }
            },
            FrameKind::Ignored => {
                assert(frames_view(frames@) =~= Seq::empty());
            },
        }
        frames
    }

    /// Acts on an NMT payload. Returns the frame that reports the new state.
    pub fn parse_nmt_command(&mut self, data: &[u8]) -> (report: Option<Frame>)
        ensures
            final(self).nmt_state == nmt_effect(old(self).id, old(self).nmt_state, data@).0,
            match nmt_effect(old(self).id, old(self).nmt_state, data@).1 {
                Some(frame) => report matches Some(r) && r@ == frame && r.transmittable(),
                None => report is None,
            },
            final(self).id == old(self).id,
            final(self).eds_data == old(self).eds_data,
    {
        if data.len() != 2 || data[1] != self.id {
            return None;
        }
        match process_nmt_command(self.id, self.nmt_state, data) {
            Ok(new_nmt_state) => {
                if new_nmt_state != self.nmt_state || new_nmt_state == NmtState::Initializing {
                    self.nmt_state = new_nmt_state;
                    Some(create_nmt_frame(self.id, self.nmt_state))
                } else {
                    None
                }
            },
            Err(_) => None,
        }
    }

    /// Serves an SDO request. Returns the response, where there is one.
    pub fn parse_sdo_client_request(&mut self, data: &[u8]) -> (response: Option<Frame>)
        ensures
            match sdo_outcome(old(self).eds_data.od@, data@) {
                Ok((entries, bytes)) => {
                    &&& response matches Some(frame)
                    &&& frame@ == (cob_with_node(COB_SDO_RESPONSE, old(self).id), bytes)
                    &&& frame.transmittable()
                    &&& final(self).eds_data.od@ == entries
                },
                Err(_) => response is None && final(self).eds_data.od@ == old(self).eds_data.od@,
            },
            same_layout(old(self).eds_data.od@, final(self).eds_data.od@),
            final(self).id == old(self).id,
            final(self).nmt_state == old(self).nmt_state,
            final(self).eds_data.file_info == old(self).eds_data.file_info,
            final(self).eds_data.device_info == old(self).eds_data.device_info,
    {
        match sdo_response(self.id, &mut self.eds_data, data) {
            Ok(frame) => Some(frame),
            Err(_) => None,
        }
    }

    /// The number of records that the mapping table `table` declares.
    fn extract_entry_count(&self, table: u16) -> (count: Option<u8>)
        ensures
            count == mapping_count(self.eds_data.od@, table),
    {
        match self.eds_data.od.get_value(table, 0) {
            Some(DataValue::Unsigned8(value)) => Some(value),
            _ => None,
        }
    }

    /// The records of the mapping table `table` at sub-indices 1 to `count`.
    fn collect_mapping(&self, table: u16, count: u8) -> (records: Vec<u32>)
        ensures
            records@ == mapping_records(self.eds_data.od@, table, count as nat),
    {
        let mut records: Vec<u32> = Vec::new();
        let mut i: u8 = 0;
        while i < count
            invariant
                i <= count,
                records@ == mapping_records(self.eds_data.od@, table, i as nat),
            decreases count - i,
        {
            i = i + 1;
            match self.eds_data.od.get_value(table, i) {
                Some(DataValue::Unsigned32(value)) => {
                    records.push(value);
                },
                _ => {},
            }
        }
        records
    }

    /// Hands the bytes of receive PDO number `rpdo_number` to the entries that
    /// its mapping names.
    pub fn parse_rpdo(&mut self, rpdo_number: u16, input_data: &[u8])
        requires
            1 <= rpdo_number <= 4,
        ensures
            final(self).eds_data.od@ == rpdo_outcome(
                old(self).eds_data.od@,
                rpdo_number,
                input_data@,
            ),
            same_layout(old(self).eds_data.od@, final(self).eds_data.od@),
            final(self).id == old(self).id,
            final(self).nmt_state == old(self).nmt_state,
            final(self).eds_data.file_info == old(self).eds_data.file_info,
            final(self).eds_data.device_info == old(self).eds_data.device_info,
    {
        let table: u16 = RPDO_MAPPING + rpdo_number - 1;
        let enabled_sub_indices: u8 = match self.extract_entry_count(table) {
            Some(count) => count,
            None => 0,
        };
        let rpdo_indices = self.collect_mapping(table, enabled_sub_indices);
        let ghost before = self.eds_data.od@;
        let ghost goal = rpdo_apply(before, rpdo_indices@, input_data@);
        let mut data: &[u8] = input_data;
        let mut i: usize = 0;
        assert(rpdo_indices@.skip(0) =~= rpdo_indices@);
        while i < rpdo_indices.len()
            invariant
                i <= rpdo_indices@.len(),
                rpdo_apply(self.eds_data.od@, rpdo_indices@.skip(i as int), data@) == goal,
                goal == rpdo_outcome(old(self).eds_data.od@, rpdo_number, input_data@),
                before == old(self).eds_data.od@,
                same_layout(before, self.eds_data.od@),
                self.id == old(self).id,
                self.nmt_state == old(self).nmt_state,
                self.eds_data.file_info == old(self).eds_data.file_info,
                self.eds_data.device_info == old(self).eds_data.device_info,
            decreases rpdo_indices@.len() - i,
        {
            let ghost current = self.eds_data.od@;
            let ghost rest = rpdo_indices@.skip(i as int);
            assert(rest.drop_first() =~= rpdo_indices@.skip(i + 1));
            let mapping = Mapping::decode(rpdo_indices[i]);
            i = i + 1;
            let stored = match self.eds_data.od.get_value(mapping.index, mapping.sub_index) {
                Some(stored) => stored,
                None => {
                    continue ;
                },
            };
            if data.len() == 0 {
                return ;
            }
            let tag = stored.data_type();
            if !mapping.maps(tag) {
                continue ;
            }
            assert(data@.skip(0) =~= data@);
            match DataValue::read_wire(tag, data, 0) {
                Some(value) => {
                    self.eds_data.od.mutate(mapping.index, mapping.sub_index, value);
                    proof {
                        lemma_same_layout_trans(before, current, self.eds_data.od@);
                    }
                    let ghost bytes = data@;
                    data = drop_front(data, tag.wire_width());
                    assert(rpdo_apply(current, rest, bytes) == rpdo_apply(
                        self.eds_data.od@,
                        rest.drop_first(),
                        data@,
                    ));
                },
                None => {
                    return ;
                },
            }
        }
    }

    /// Whether transmit PDO `index` is enabled, and its transmission type.
    fn extract_tpdo_data(&self, index: u16) -> (parameters: (Option<bool>, Option<u8>))
        requires
            index < TPDO_COUNT,
        ensures
            parameters.0 == tpdo_enabled(self.eds_data.od@, index),
            parameters.1 == tpdo_transmission_type(self.eds_data.od@, index),
    {
        let enabled = match self.eds_data.od.get_value(TPDO_COMMUNICATION + index, 1) {
            Some(DataValue::Unsigned32(value)) => Some(value < 0x8000_0000),
            _ => None,
        };
        let sync_type = match self.eds_data.od.get_value(TPDO_COMMUNICATION + index, 2) {
            Some(DataValue::Unsigned8(value)) => Some(value),
            _ => None,
        };
        (enabled, sync_type)
    }

    /// The mapping of transmit PDO `tpdo_number`, where it is due on a SYNC.
    fn collect_tpdo_objects(&self, tpdo_number: u16) -> (records: Option<Vec<u32>>)
        requires
            tpdo_number < TPDO_COUNT,
        ensures
            match tpdo_due(self.eds_data.od@, tpdo_number) {
                Some(due) => records matches Some(r) && r@ == due,
                None => records is None,
            },
    {
        let (tpdo_enabled, sync_type) = self.extract_tpdo_data(tpdo_number);
        match (tpdo_enabled, sync_type) {
            (Some(true), Some(kind)) => {
                if kind != TRANSMIT_ON_SYNC {
                    return None;
                }
            },
            _ => {
                return None;
            },
        }
        match self.extract_entry_count(TPDO_MAPPING + tpdo_number) {
            Some(entries) => Some(self.collect_mapping(TPDO_MAPPING + tpdo_number, entries)),
            None => None,
        }
    }

    /// The bytes that the mapping record `tpdo_content` contributes.
    fn extract_tpdo_content(&self, tpdo_content: u32) -> (bytes: Option<Vec<u8>>)
        ensures
            match bytes {
                Some(b) => b@ == mapped_bytes(self.eds_data.od@, tpdo_content),
                None => mapped_bytes(self.eds_data.od@, tpdo_content) == Seq::<u8>::empty(),
            },
    {
        let mapping = Mapping::decode(tpdo_content);
        match self.eds_data.od.get_value(mapping.index, mapping.sub_index) {
            Some(value) => {
                if mapping.maps(value.data_type()) {
                    Some(value.wire_bytes())
                } else {
                    None
                }
            },
            None => None,
        }
    }

    /// The frame of transmit PDO `tpdo_number` with the mapping
    /// `tpdo_sub_indices`.
    fn assemble_tpdo(&self, tpdo_number: u16, tpdo_sub_indices: &Vec<u32>) -> (frame: Frame)
        requires
            tpdo_number < TPDO_COUNT,
        ensures
            frame@ == (
                tpdo_cob(self.id, tpdo_number),
                tpdo_payload(self.eds_data.od@, tpdo_sub_indices@),
            ),
    {
        let mut data_to_send: Vec<u8> = Vec::new();
        let mut i: usize = 0;
        while i < tpdo_sub_indices.len()
            invariant
                i <= tpdo_sub_indices@.len(),
                data_to_send@ == tpdo_payload(self.eds_data.od@, tpdo_sub_indices@.take(i as int)),
            decreases tpdo_sub_indices@.len() - i,
        {
            let ghost prefix = tpdo_sub_indices@.take(i + 1);
            assert(prefix.drop_last() =~= tpdo_sub_indices@.take(i as int));
            if let Some(mut data) = self.extract_tpdo_content(tpdo_sub_indices[i]) {
                data_to_send.append(&mut data);
            }
            i = i + 1;
        }
        assert(tpdo_sub_indices@.take(i as int) =~= tpdo_sub_indices@);
        let functions_code: u16 = COB_TPDO + tpdo_number * 0x100;
        Frame { cob_id: functions_code | self.id as u16, data: data_to_send }
    }

    /// Gathers the transmit PDOs that a SYNC asks for, in ascending order.
    pub fn parse_sync(&self) -> (frames: Vec<Frame>)
        ensures
            frames_view(frames@) == sync_frames(self.eds_data.od@, self.id, TPDO_COUNT as nat),
    {
        let mut frames: Vec<Frame> = Vec::new();
        let mut k: u16 = 0;
        while k < TPDO_COUNT
            invariant
                k <= TPDO_COUNT,
                frames_view(frames@) == sync_frames(self.eds_data.od@, self.id, k as nat),
            decreases TPDO_COUNT - k,
        {
            if let Some(tpdo_sub_indices) = self.collect_tpdo_objects(k) {
                if tpdo_sub_indices.len() > 0 {
                    let frame = self.assemble_tpdo(k, &tpdo_sub_indices);
                    frames.push(frame);
                }
            }
            k = k + 1;
        }
        frames
    }

    /// Takes note of an emergency object. It has no effect on the node.
    pub fn parse_emcy(&mut self)
        ensures
            *final(self) == *old(self),
    {
    }
}

/// `slice` without its first `count` bytes; empty where it has fewer.
pub fn drop_front(slice: &[u8], count: usize) -> (rest: &[u8])
    ensures
        rest@ == if count > slice@.len() {
            Seq::<u8>::empty()
        } else {
            slice@.skip(count as int)
        },
{
    if count > slice.len() {
        slice_subrange(slice, 0, 0)
    } else {
        slice_subrange(slice, count, slice.len())
    }
}

/// Receive PDOs keep the layout of the dictionary: they change values only, and
/// none changes its type.
pub proof fn lemma_rpdo_keeps_layout(entries: Entries, records: Seq<u32>, data: Seq<u8>)
    ensures
        same_layout(entries, rpdo_apply(entries, records, data)),
    decreases records.len(),
{
    if records.len() > 0 {
        let mapping = Mapping::of(records[0]);
        let rest = records.drop_first();
        match value_at(entries, mapping.index, mapping.sub_index) {
            None => lemma_rpdo_keeps_layout(entries, rest, data),
            Some(stored) => if data.len() == 0 {
            } else if !mapping.fits(stored.tag()) {
                lemma_rpdo_keeps_layout(entries, rest, data)
            } else {
                match DataValue::from_wire(stored.tag(), data) {
                    None => {},
                    Some(value) => {
                        let next = after_write(entries, mapping.index, mapping.sub_index, value);
                        lemma_write_keeps_layout(entries, mapping.index, mapping.sub_index, value);
                        lemma_rpdo_keeps_layout(next, rest, data.skip(stored.tag().width() as int));
                        lemma_same_layout_trans(
                            entries,
                            next,
                            rpdo_apply(next, rest, data.skip(stored.tag().width() as int)),
                        );
                    },
                }
            },
        }
    }
}

/// A write keeps the layout of the dictionary.
pub proof fn lemma_write_keeps_layout(entries: Entries, index: u16, sub_index: u8, value: DataValue)
    ensures
        same_layout(entries, after_write(entries, index, sub_index, value)),
{
    let after = after_write(entries, index, sub_index, value);
    assert(after.dom() =~= entries.dom());
}

/// Keeping the layout is transitive.
pub proof fn lemma_same_layout_trans(a: Entries, b: Entries, c: Entries)
    requires
        same_layout(a, b),
        same_layout(b, c),
    ensures
        same_layout(a, c),
{
    assert forall|k: (u16, u8)| #[trigger] a.contains_key(k) implies c[k].value.tag()
        == a[k].value.tag() && c[k] == a[k].with_value(c[k].value) by {
        assert(b.contains_key(k));
    }
}

} // verus!
