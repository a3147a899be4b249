//! What holds of the node and of the drive across their operations.

use vstd::prelude::*;
use crate::cia301::{
    Mapping,
    NodeView,
    frame_outcome,
    lemma_rpdo_keeps_layout,
    lemma_write_keeps_layout,
    mapped_bytes,
    nmt_effect,
    rpdo_apply,
    tpdo_payload,
};
use crate::cia402_runner::{
    Command,
    DriveView,
    State,
    command_of,
    next_state,
    state_bits,
    statusword_of,
    with_bits,
};
use crate::codec::{lemma_value_roundtrip, lemma_wire_roundtrip};
use crate::eds::DataValue;
use crate::frame::{FrameKind, cob_with_node, frame_kind, function_code_of, node_id_of};
use crate::nmt::NmtState;
use crate::od::{Entries, accepts, after_write, same_layout, value_at};
use crate::sdo::{
    ClientCommand,
    SDO_LENGTH,
    index_of,
    lemma_upload_response,
    sdo_outcome,
    specifier_of,
    sub_index_of,
};

verus! {

/// An identifier splits as the wire format has it: its bits 0 to 6 are the
/// node id and its bits 7 to 10 the function code.
pub proof fn identifiers_split_by_masks(cob_id: u32)
    ensures
        node_id_of(cob_id) == cob_id & 0x7F,
        function_code_of(cob_id) == cob_id & 0x780,
{
    assert(cob_id % 0x80 == cob_id & 0x7F) by (bit_vector);
    assert((cob_id / 0x80) % 0x10 * 0x80 == cob_id & 0x780) by (bit_vector);
}

/// For a node id of at most 127 and a base whose low seven bits are clear, to
/// set the id's bits in the base is to add the id: so the identifiers of NMT
/// state frames, SDO responses and transmit PDOs are base plus node id.
pub proof fn identifiers_are_base_plus_id(base: u16, node_id: u8)
    requires
        node_id <= 127,
        base % 0x80 == 0,
        base <= 0xFF80,
    ensures
        cob_with_node(base, node_id) == base + node_id,
{
    let id = node_id as u16;
    assert(base | id == base + id) by (bit_vector)
        requires
            id <= 127,
            base % 0x80 == 0,
            base <= 0xFF80,
    ;
}

/// No frame changes the type of an entry: whatever a node receives, its
/// dictionary keeps its entries, and each keeps its tag, its name, its access
/// type and its mapping flag.
pub proof fn frames_keep_types(node: NodeView, cob_id: u32, data: Seq<u8>)
    ensures
        same_layout(node.entries, frame_outcome(node, cob_id, data).0.entries),
{
    match frame_kind(cob_id, node.id) {
        FrameKind::Rpdo(n) => {
            let table = (crate::cia301::RPDO_MAPPING + n - 1) as u16;
            let count = match crate::cia301::mapping_count(node.entries, table) {
                Some(count) => count as nat,
                None => 0,
            };
            lemma_rpdo_keeps_layout(
                node.entries,
                crate::cia301::mapping_records(node.entries, table, count),
                data,
            );
        },
        FrameKind::Sdo => {
            sdo_keeps_types(node.entries, data);
        },
        _ => {},
    }
}

/// No SDO request changes the type of an entry.
pub proof fn sdo_keeps_types(entries: Entries, data: Seq<u8>)
    ensures
        sdo_outcome(entries, data) matches Ok((after, _)) ==> same_layout(entries, after),
{
    if let Ok((after, _)) = sdo_outcome(entries, data) {
        if ClientCommand::of(specifier_of(data[0])) == ClientCommand::InitiateDownload {
            let stored = value_at(entries, index_of(data), sub_index_of(data))->0;
            let value = crate::sdo::download_value(stored.tag(), data)->0;
            lemma_write_keeps_layout(entries, index_of(data), sub_index_of(data), value);
        }
    }
}

/// An NMT command to this node takes it to the state of the command table,
/// whatever state it was in; a byte that is no command leaves the state.
pub proof fn nmt_follows_table(node_id: u8, state: NmtState, requested: u8)
    ensures
        nmt_effect(node_id, state, seq![requested, node_id]).0 == match requested {
            0x01 => NmtState::Operational,
            0x02 => NmtState::Stopped,
            0x80 => NmtState::PreOperational,
            0x81 => NmtState::Initializing,
            0x82 => NmtState::Initializing,
            _ => state,
        },
{
}

/// An NMT command to another node changes nothing and is not answered.
pub proof fn nmt_ignores_other_nodes(node_id: u8, state: NmtState, data: Seq<u8>)
    requires
        data.len() == 2 ==> data[1] != node_id,
    ensures
        nmt_effect(node_id, state, data) == (state, None::<(u16, Seq<u8>)>),
{
}

/// Every response to an upload has a first byte with server command 2 in bits
/// 7..5, the number of unused bytes in bits 3..2 and bits 1 and 0 set, and
/// echoes index and sub-index of the request.
pub proof fn upload_responses_are_well_formed(entries: Entries, data: Seq<u8>)
    requires
        data.len() == SDO_LENGTH,
        ClientCommand::of(specifier_of(data[0])) == ClientCommand::InitiateUpload,
        sdo_outcome(entries, data) is Ok,
    ensures
        ({
            let response = sdo_outcome(entries, data)->Ok_0.1;
            let value = value_at(entries, index_of(data), sub_index_of(data))->0;
            &&& response.len() == 8
            &&& response[0] >> 5 == 2
            &&& (response[0] >> 2) & 3 == 4 - value.tag().width()
            &&& (response[0] >> 1) & 1 == 1
            &&& response[0] & 1 == 1
            &&& response[1] == data[1]
            &&& response[2] == data[2]
            &&& response[3] == data[3]
        }),
{
    let value = value_at(entries, index_of(data), sub_index_of(data))->0;
    lemma_upload_response(index_of(data), sub_index_of(data), value);
}

/// What a download wrote, an upload reads: after the download of `value` to an
/// entry of its type, the entry holds `value`, and the response to an upload
/// of the entry carries the wire form of `value` and leaves the dictionary as
/// it is.
pub proof fn download_then_upload(
    entries: Entries,
    value: DataValue,
    download: Seq<u8>,
    upload: Seq<u8>,
)
    requires
        value.tag().on_wire(),
        download.len() == SDO_LENGTH,
        upload.len() == SDO_LENGTH,
        ClientCommand::of(specifier_of(download[0])) == ClientCommand::InitiateDownload,
        ClientCommand::of(specifier_of(upload[0])) == ClientCommand::InitiateUpload,
        index_of(upload) == index_of(download),
        sub_index_of(upload) == sub_index_of(download),
        accepts(entries, index_of(download), sub_index_of(download), value),
        download.subrange(4, 4 + value.tag().width() as int) == value.to_wire(),
    ensures
        sdo_outcome(entries, download) is Ok,
        ({
            let written = sdo_outcome(entries, download)->Ok_0.0;
            &&& value_at(written, index_of(download), sub_index_of(download)) == Some(value)
            &&& sdo_outcome(written, upload) is Ok
            &&& sdo_outcome(written, upload)->Ok_0.0 == written
            &&& sdo_outcome(written, upload)->Ok_0.1.subrange(4, 4 + value.tag().width() as int)
                == value.to_wire()
        }),
{
    let width = value.tag().width() as int;
    let payload = download.skip(4);
    assert(payload.take(width) =~= download.subrange(4, 4 + width));
    lemma_value_roundtrip(value, payload);
    lemma_upload_response(index_of(upload), sub_index_of(upload), value);
}

/// A receive PDO without bytes changes nothing.
pub proof fn rpdo_without_bytes_changes_nothing(entries: Entries, records: Seq<u32>)
    ensures
        rpdo_apply(entries, records, Seq::<u8>::empty()) == entries,
    decreases records.len(),
{
    if records.len() > 0 {
        rpdo_without_bytes_changes_nothing(entries, records.drop_first());
    }
}

/// The cell that a mapping record names.
pub open spec fn cell_of(record: u32) -> (u16, u8) {
    (Mapping::of(record).index, Mapping::of(record).sub_index)
}

/// Whether each of `records` maps an entry of `entries` by just its width.
pub open spec fn all_mapped(entries: Entries, records: Seq<u32>) -> bool {
    forall|i: int|
        0 <= i < records.len() ==> entries.contains_key(#[trigger] cell_of(records[i]))
            && Mapping::of(records[i]).fits(entries[cell_of(records[i])].value.tag())
}

/// Whether no two of `records` name the same cell.
pub open spec fn distinct_cells(records: Seq<u32>) -> bool {
    forall|i: int, j: int|
        0 <= i < j < records.len() ==> cell_of(records[i]) != cell_of(records[j])
}

/// The number of bytes that `records` map.
pub open spec fn mapped_width(entries: Entries, records: Seq<u32>) -> nat
    decreases records.len(),
{
    if records.len() == 0 {
        0
    } else {
        entries[cell_of(records[0])].value.tag().width() + mapped_width(
            entries,
            records.drop_first(),
        )
    }
}

/// A receive PDO does not touch a cell that none of its records names.
pub proof fn rpdo_leaves_other_cells(
    entries: Entries,
    records: Seq<u32>,
    data: Seq<u8>,
    cell: (u16, u8),
)
    requires
        forall|i: int| 0 <= i < records.len() ==> cell_of(#[trigger] records[i]) != cell,
    ensures
        rpdo_apply(entries, records, data).contains_key(cell) == entries.contains_key(cell),
        rpdo_apply(entries, records, data)[cell] == entries[cell],
    decreases records.len(),
{
    if records.len() > 0 {
        let mapping = Mapping::of(records[0]);
        let rest = records.drop_first();
        assert forall|i: int| 0 <= i < rest.len() implies cell_of(#[trigger] rest[i]) != cell by {
            assert(rest[i] == records[i + 1]);
        }
        match value_at(entries, mapping.index, mapping.sub_index) {
            None => rpdo_leaves_other_cells(entries, rest, data, cell),
            Some(stored) => if data.len() == 0 {
            } else if !mapping.fits(stored.tag()) {
                rpdo_leaves_other_cells(entries, rest, data, cell)
            } else {
                match DataValue::from_wire(stored.tag(), data) {
                    None => {},
                    Some(value) => {
                        rpdo_leaves_other_cells(
                            after_write(entries, mapping.index, mapping.sub_index, value),
                            rest,
                            data.skip(stored.tag().width() as int),
                            cell,
                        );
                    },
                }
            },
        }
    }
}

/// The payload of a transmit PDO begins with what its first record maps.
pub proof fn tpdo_payload_unfolds(entries: Entries, records: Seq<u32>)
    requires
        records.len() > 0,
    ensures
        tpdo_payload(entries, records) == mapped_bytes(entries, records[0]) + tpdo_payload(
            entries,
            records.drop_first(),
        ),
    decreases records.len(),
{
    if records.len() == 1 {
        assert(records.drop_last() =~= Seq::<u32>::empty());
        assert(records.drop_first() =~= Seq::<u32>::empty());
    } else {
        tpdo_payload_unfolds(entries, records.drop_last());
        assert(records.drop_last().drop_first() =~= records.drop_first().drop_last());
    }
}

/// What a receive PDO brought, a transmit PDO of the same mapping sends:
/// where every record maps an entry by its width, no two records name the
/// same cell and the data has just the bytes that the records map, the
/// payload gathered after the data was received is the data.
pub proof fn rpdo_then_tpdo(entries: Entries, records: Seq<u32>, data: Seq<u8>)
    requires
        all_mapped(entries, records),
        distinct_cells(records),
        data.len() == mapped_width(entries, records),
    ensures
        tpdo_payload(rpdo_apply(entries, records, data), records) == data,
    decreases records.len(),
{
    if records.len() == 0 {
        assert(data =~= Seq::<u8>::empty());
    } else {
        let mapping = Mapping::of(records[0]);
        let cell = cell_of(records[0]);
        let rest = records.drop_first();
        let stored = entries[cell].value;
        let width = stored.tag().width();
        lemma_wire_roundtrip(stored.tag(), data);
        let value = DataValue::from_wire(stored.tag(), data)->0;
        let written = after_write(entries, mapping.index, mapping.sub_index, value);
        let left = data.skip(width as int);
        let last = rpdo_apply(written, rest, left);
        lemma_write_keeps_layout(entries, mapping.index, mapping.sub_index, value);
        mapped_width_keeps(entries, written, rest);
        rpdo_then_tpdo(written, rest, left);
        rpdo_leaves_other_cells(written, rest, left, cell);
        tpdo_payload_unfolds(last, records);
    }
}

/// The number of bytes that records map depends on the types of the entries
/// alone.
pub proof fn mapped_width_keeps(before: Entries, after: Entries, records: Seq<u32>)
    requires
        same_layout(before, after),
        forall|i: int| 0 <= i < records.len() ==> before.contains_key(#[trigger] cell_of(records[i])),
    ensures
        mapped_width(after, records) == mapped_width(before, records),
    decreases records.len(),
{
    if records.len() > 0 {
        let rest = records.drop_first();
        mapped_width_keeps(before, after, rest);
    }
}

/// The controlwords 0x06, 0x07 and 0x0F give the commands Shutdown, SwitchOn
/// and EnableOperation.
pub proof fn enabling_controlwords()
    ensures
        command_of(0x06) == Command::Shutdown,
        command_of(0x07) == Command::SwitchOn,
        command_of(0x0F) == Command::EnableOperation,
{
    assert(0x06u16 & (1u16 << 0usize) == 0 && 0x06u16 & (1u16 << 1usize) != 0 && 0x06u16 & (1u16
        << 2usize) != 0 && 0x06u16 & (1u16 << 3usize) == 0 && 0x06u16 & (1u16 << 7usize) == 0)
        by (bit_vector);
    assert(0x07u16 & (1u16 << 0usize) != 0 && 0x07u16 & (1u16 << 1usize) != 0 && 0x07u16 & (1u16
        << 2usize) != 0 && 0x07u16 & (1u16 << 3usize) == 0 && 0x07u16 & (1u16 << 7usize) == 0)
        by (bit_vector);
    assert(0x0Fu16 & (1u16 << 0usize) != 0 && 0x0Fu16 & (1u16 << 1usize) != 0 && 0x0Fu16 & (1u16
        << 2usize) != 0 && 0x0Fu16 & (1u16 << 3usize) != 0 && 0x0Fu16 & (1u16 << 7usize) == 0)
        by (bit_vector);
}

/// From a drive that is switched on, ready to switch on, disabled for switching
/// on or already enabled, the commands Shutdown, SwitchOn and EnableOperation,
/// one per tick, enable operation.
pub proof fn three_commands_enable_operation(state: State)
    requires
        state == State::SwitchedOnDisabled || state == State::ReadyToSwitchOn || state
            == State::SwitchedOn || state == State::OperationEnabled,
    ensures
        next_state(
            next_state(next_state(state, Command::Shutdown), Command::SwitchOn),
            Command::EnableOperation,
        ) == State::OperationEnabled,
{
}

/// A tick that does not fail moves the drive state by the command of the
/// controlword in the dictionary.
pub proof fn tick_follows_controlword(drive: DriveView, now: u64)
    requires
        drive.tick_error() is None,
    ensures
        drive.tick(now).0.state == next_state(drive.state, command_of(drive.controlword_in()->0)),
{
}

/// A drive that asks for a trajectory waits for it: after a tick that returns a
/// request, the trajectory handed to the drive is followed.
pub proof fn a_request_is_awaited(drive: DriveView, now: u64, points: Map<u64, i32>)
    requires
        drive.tick(now).1 is Some,
    ensures
        drive.tick(now).0.awaits_trajectory(),
        drive.tick(now).0.start_move(now, points).motion == points,
        drive.tick(now).0.start_move(now, points).status_oms1,
        !drive.tick(now).0.start_move(now, points).target_reached,
{
}

/// The statusword shows the drive state in bits 0 to 3, 5 and 6 as the state
/// fixes them, whatever it was before; it shows target reached in bit 10 and
/// the mode-specific status in bits 12 and 13; and every other bit, bit 5
/// where the state leaves it open, is as it was.
pub proof fn statusword_shows_state(
    word: u16,
    state: State,
    target_reached: bool,
    status_oms1: bool,
    status_oms2: bool,
)
    ensures
        ({
            let next = statusword_of(word, state, target_reached, status_oms1, status_oms2);
            match state {
                State::NotReadyToSwitchOn => next & 0x6F == 0x00,
                State::SwitchedOnDisabled => next & 0x4F == 0x40,
                State::ReadyToSwitchOn => next & 0x6F == 0x21,
                State::SwitchedOn => next & 0x6F == 0x23,
                State::OperationEnabled => next & 0x6F == 0x27,
                State::QuickStopActive => next & 0x6F == 0x07,
                State::FaultReactionActive => next & 0x4F == 0x0F,
                State::Fault => next & 0x4F == 0x08,
            }
        }),
        ({
            let next = statusword_of(word, state, target_reached, status_oms1, status_oms2);
            &&& (next & 0x0400 != 0) == target_reached
            &&& (next & 0x1000 != 0) == status_oms1
            &&& (next & 0x2000 != 0) == status_oms2
        }),
        ({
            let next = statusword_of(word, state, target_reached, status_oms1, status_oms2);
            match state {
                State::SwitchedOnDisabled | State::FaultReactionActive | State::Fault => next
                    & 0xCBB0 == word & 0xCBB0,
                _ => next & 0xCB90 == word & 0xCB90,
            }
        }),
{
    reveal_with_fuel(with_bits, 8);
    let b = state_bits(state);
    let m10: u16 = if target_reached { 0x0400 } else { 0 };
    let m12: u16 = if status_oms1 { 0x1000 } else { 0 };
    let m13: u16 = if status_oms2 { 0x2000 } else { 0 };
    assert(1u16 << 0usize == 0x01 && 1u16 << 1usize == 0x02 && 1u16 << 2usize == 0x04 && 1u16
        << 3usize == 0x08 && 1u16 << 5usize == 0x20 && 1u16 << 6usize == 0x40 && 1u16 << 10usize
        == 0x0400 && 1u16 << 12usize == 0x1000 && 1u16 << 13usize == 0x2000) by (bit_vector);
    let staged = with_bits(word, b);
    let next = statusword_of(word, state, target_reached, status_oms1, status_oms2);
    assert(next == ((staged & !0x0400u16 | m10) & !0x1000u16 | m12) & !0x2000u16 | m13) by {
        assert(staged | 0x0400 == staged & !0x0400u16 | 0x0400) by (bit_vector);
        assert(staged & !0x0400u16 == staged & !0x0400u16 | 0) by (bit_vector);
        let s10 = staged & !0x0400u16 | m10;
        assert(s10 | 0x1000 == s10 & !0x1000u16 | 0x1000) by (bit_vector);
        assert(s10 & !0x1000u16 == s10 & !0x1000u16 | 0) by (bit_vector);
        let s12 = s10 & !0x1000u16 | m12;
        assert(s12 | 0x2000 == s12 & !0x2000u16 | 0x2000) by (bit_vector);
        assert(s12 & !0x2000u16 == s12 & !0x2000u16 | 0) by (bit_vector);
    }
    assert((next & 0x0400 != 0) == target_reached && (next & 0x1000 != 0) == status_oms1 && (next
        & 0x2000 != 0) == status_oms2 && next & 0x6F == staged & 0x6F) by (bit_vector)
        requires
            next == ((staged & !0x0400u16 | m10) & !0x1000u16 | m12) & !0x2000u16 | m13,
            m10 == (if target_reached { 0x0400u16 } else { 0u16 }),
            m12 == (if status_oms1 { 0x1000u16 } else { 0u16 }),
            m13 == (if status_oms2 { 0x2000u16 } else { 0u16 }),
    ;
    assert(next & 0x4F == staged & 0x4F) by (bit_vector)
        requires
            next & 0x6F == staged & 0x6F,
    ;
    assert(next & 0xCBB0 == staged & 0xCBB0 && next & 0xCB90 == staged & 0xCB90) by (bit_vector)
        requires
            next == ((staged & !0x0400u16 | m10) & !0x1000u16 | m12) & !0x2000u16 | m13,
            m10 == 0x0400u16 || m10 == 0u16,
            m12 == 0x1000u16 || m12 == 0u16,
            m13 == 0x2000u16 || m13 == 0u16,
    ;
    match state {
        State::NotReadyToSwitchOn => {
            assert(((((((word & !0x01u16) & !0x02u16) & !0x04u16) & !0x08u16) & !0x20u16)
                & !0x40u16) & 0x6F == 0) by (bit_vector);
            assert(((((((word & !0x01u16) & !0x02u16) & !0x04u16) & !0x08u16) & !0x20u16) & !0x40u16)
                & 0xCB90 == word & 0xCB90) by (bit_vector);
        },
        State::SwitchedOnDisabled => {
            assert((((((word & !0x01u16) & !0x02u16) & !0x04u16) & !0x08u16) | 0x40u16) & 0x4F
                == 0x40) by (bit_vector);
            assert((((((word & !0x01u16) & !0x02u16) & !0x04u16) & !0x08u16) | 0x40u16)
                & 0xCBB0 == word & 0xCBB0) by (bit_vector);
        },
        State::ReadyToSwitchOn => {
            assert(((((((word | 0x01u16) & !0x02u16) & !0x04u16) & !0x08u16) | 0x20u16)
                & !0x40u16) & 0x6F == 0x21) by (bit_vector);
            assert(((((((word | 0x01u16) & !0x02u16) & !0x04u16) & !0x08u16) | 0x20u16) & !0x40u16)
                & 0xCB90 == word & 0xCB90) by (bit_vector);
        },
        State::SwitchedOn => {
            assert(((((((word | 0x01u16) | 0x02u16) & !0x04u16) & !0x08u16) | 0x20u16)
                & !0x40u16) & 0x6F == 0x23) by (bit_vector);
            assert(((((((word | 0x01u16) | 0x02u16) & !0x04u16) & !0x08u16) | 0x20u16) & !0x40u16)
                & 0xCB90 == word & 0xCB90) by (bit_vector);
        },
        State::OperationEnabled => {
            assert(((((((word | 0x01u16) | 0x02u16) | 0x04u16) & !0x08u16) | 0x20u16) & !0x40u16)
                & 0x6F == 0x27) by (bit_vector);
            assert(((((((word | 0x01u16) | 0x02u16) | 0x04u16) & !0x08u16) | 0x20u16) & !0x40u16)
                & 0xCB90 == word & 0xCB90) by (bit_vector);
        },
        State::QuickStopActive => {
            assert(((((((word | 0x01u16) | 0x02u16) | 0x04u16) & !0x08u16) & !0x20u16)
                & !0x40u16) & 0x6F == 0x07) by (bit_vector);
            assert(((((((word | 0x01u16) | 0x02u16) | 0x04u16) & !0x08u16) & !0x20u16) & !0x40u16)
                & 0xCB90 == word & 0xCB90) by (bit_vector);
        },
        State::FaultReactionActive => {
            assert((((((word | 0x01u16) | 0x02u16) | 0x04u16) | 0x08u16) & !0x40u16) & 0x4F
                == 0x0F) by (bit_vector);
            assert((((((word | 0x01u16) | 0x02u16) | 0x04u16) | 0x08u16) & !0x40u16)
                & 0xCBB0 == word & 0xCBB0) by (bit_vector);
        },
        State::Fault => {
            assert((((((word & !0x01u16) & !0x02u16) & !0x04u16) | 0x08u16) & !0x40u16) & 0x4F
                == 0x08) by (bit_vector);
            assert((((((word & !0x01u16) & !0x02u16) & !0x04u16) | 0x08u16) & !0x40u16)
                & 0xCBB0 == word & 0xCBB0) by (bit_vector);
        },
    }
}

} // verus!
