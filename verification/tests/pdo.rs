use canopen_drive::cia301::{drop_front, Mapping, Node};
use canopen_drive::eds::{DataType, DataValue, DeviceInfo, EDSData, FileInfo, Var};
use canopen_drive::frame::{classify, FrameKind};
use canopen_drive::nmt::NmtState;
use canopen_drive::od::ObjectDictionary;

fn node_with(id: u8, entries: &[(u16, u8, DataValue)]) -> Node {
    let mut od = ObjectDictionary::new();
    for (index, sub_index, value) in entries {
        od.insert(
            *index,
            *sub_index,
            Var {
                parameter_name: String::from("entry"),
                access_type: String::from("rw"),
                value: *value,
                pdo_mapping: true,
            },
        );
    }
    Node::new(
        id,
        EDSData {
            file_info: FileInfo {
                file_name: String::new(),
                file_version: 0,
                file_revision: 0,
                eds_version: String::new(),
                description: String::new(),
                created_by: String::new(),
            },
            device_info: DeviceInfo {
                vendor_name: String::new(),
                vendor_number: 0,
                product_name: String::new(),
                product_number: 0,
            },
            od,
            real32_defaults: Vec::new(),
        },
    )
}

fn value(node: &Node, index: u16, sub_index: u8) -> Option<DataValue> {
    node.eds_data.od.get_value(index, sub_index)
}

#[test]
fn identifiers_are_sorted_by_the_dispatch_table() {
    assert_eq!(classify(0x000, 5), FrameKind::Nmt);
    assert_eq!(classify(0x080, 5), FrameKind::Sync);
    assert_eq!(classify(0x100, 5), FrameKind::Ignored);
    assert_eq!(classify(0x085, 5), FrameKind::Emcy);
    assert_eq!(classify(0x205, 5), FrameKind::Rpdo(1));
    assert_eq!(classify(0x305, 5), FrameKind::Rpdo(2));
    assert_eq!(classify(0x405, 5), FrameKind::Rpdo(3));
    assert_eq!(classify(0x505, 5), FrameKind::Rpdo(4));
    assert_eq!(classify(0x605, 5), FrameKind::Sdo);
    assert_eq!(classify(0x185, 5), FrameKind::Ignored);
    assert_eq!(classify(0x585, 5), FrameKind::Ignored);
    assert_eq!(classify(0x705, 5), FrameKind::Ignored);
    assert_eq!(classify(0x206, 5), FrameKind::Ignored);
    assert_eq!(classify(0x600, 5), FrameKind::Ignored);
    // Only the low eleven bits are looked at.
    assert_eq!(classify(0x1F_FFFF_u32 & !0x7FF | 0x605, 5), FrameKind::Sdo);
}

#[test]
fn mapping_records_are_decoded() {
    let mapping = Mapping::decode(0x6040_0010);
    assert_eq!(mapping, Mapping { index: 0x6040, sub_index: 0x00, bit_length: 0x10 });
    let mapping = Mapping::decode(0x607A_0320);
    assert_eq!(mapping, Mapping { index: 0x607A, sub_index: 0x03, bit_length: 0x20 });
    assert!(mapping.maps(DataType::Integer32));
    assert!(mapping.maps(DataType::Unsigned32));
    assert!(!mapping.maps(DataType::Unsigned16));
    assert!(!mapping.maps(DataType::Real32));
    assert!(Mapping::decode(0x2000_0108).maps(DataType::Integer8));
    assert!(!Mapping::decode(0x2000_0100).maps(DataType::Unknown));
}

#[test]
fn drop_front_drops_or_empties() {
    assert_eq!(drop_front(&[1, 2, 3], 0), &[1, 2, 3]);
    assert_eq!(drop_front(&[1, 2, 3], 2), &[3]);
    assert_eq!(drop_front(&[1, 2, 3], 3), &[] as &[u8]);
    assert_eq!(drop_front(&[1, 2, 3], 4), &[] as &[u8]);
    assert_eq!(drop_front(&[], 1), &[] as &[u8]);
}

#[test]
fn rpdo_updates_the_dictionary() {
    let mut node = node_with(
        1,
        &[
            (0x1600, 0, DataValue::Unsigned8(1)),
            (0x1600, 1, DataValue::Unsigned32(0x6040_0010)),
            (0x6040, 0, DataValue::Unsigned16(0)),
        ],
    );
    let frames = node.handle_frame(0x201, &[0x0F, 0x00]);
    assert!(frames.is_empty());
    assert_eq!(value(&node, 0x6040, 0), Some(DataValue::Unsigned16(0x000F)));
    assert_eq!(node.nmt_state, NmtState::Initializing);
}

#[test]
fn rpdo_numbers_use_their_own_tables() {
    let mut node = node_with(
        3,
        &[
            (0x1601, 0, DataValue::Unsigned8(1)),
            (0x1601, 1, DataValue::Unsigned32(0x2000_0008)),
            (0x1603, 0, DataValue::Unsigned8(1)),
            (0x1603, 1, DataValue::Unsigned32(0x2001_0008)),
            (0x2000, 0, DataValue::Unsigned8(0)),
            (0x2001, 0, DataValue::Integer8(0)),
        ],
    );
    node.handle_frame(0x303, &[0x11]);
    assert_eq!(value(&node, 0x2000, 0), Some(DataValue::Unsigned8(0x11)));
    assert_eq!(value(&node, 0x2001, 0), Some(DataValue::Integer8(0)));
    node.handle_frame(0x503, &[0xFF]);
    assert_eq!(value(&node, 0x2001, 0), Some(DataValue::Integer8(-1)));
    // No table for the first and third receive PDO.
    node.handle_frame(0x203, &[0x22]);
    node.handle_frame(0x403, &[0x22]);
    assert_eq!(value(&node, 0x2000, 0), Some(DataValue::Unsigned8(0x11)));
}

#[test]
fn rpdo_takes_bytes_in_order() {
    let mut node = node_with(
        1,
        &[
            (0x1600, 0, DataValue::Unsigned8(3)),
            (0x1600, 1, DataValue::Unsigned32(0x6040_0010)),
            (0x1600, 2, DataValue::Unsigned32(0x6060_0008)),
            (0x1600, 3, DataValue::Unsigned32(0x607A_0020)),
            (0x6040, 0, DataValue::Unsigned16(0)),
            (0x6060, 0, DataValue::Integer8(0)),
            (0x607A, 0, DataValue::Integer32(0)),
        ],
    );
    node.parse_rpdo(1, &[0x0F, 0x01, 0xFD, 0xF0, 0xF1, 0xFF, 0xFF]);
    assert_eq!(value(&node, 0x6040, 0), Some(DataValue::Unsigned16(0x010F)));
    assert_eq!(value(&node, 0x6060, 0), Some(DataValue::Integer8(-3)));
    assert_eq!(value(&node, 0x607A, 0), Some(DataValue::Integer32(-3600)));
}

#[test]
fn rpdo_stops_when_the_bytes_run_out() {
    let entries = [
        (0x1600, 0, DataValue::Unsigned8(2)),
        (0x1600, 1, DataValue::Unsigned32(0x6040_0010)),
        (0x1600, 2, DataValue::Unsigned32(0x607A_0020)),
        (0x6040, 0, DataValue::Unsigned16(7)),
        (0x607A, 0, DataValue::Integer32(7)),
    ];
    // Nothing at all.
    let mut node = node_with(1, &entries);
    node.parse_rpdo(1, &[]);
    assert_eq!(value(&node, 0x6040, 0), Some(DataValue::Unsigned16(7)));
    // Half of the first value.
    let mut node = node_with(1, &entries);
    node.parse_rpdo(1, &[0x01]);
    assert_eq!(value(&node, 0x6040, 0), Some(DataValue::Unsigned16(7)));
    assert_eq!(value(&node, 0x607A, 0), Some(DataValue::Integer32(7)));
    // The first value and a part of the second.
    let mut node = node_with(1, &entries);
    node.parse_rpdo(1, &[0x01, 0x02, 0x03, 0x04, 0x05]);
    assert_eq!(value(&node, 0x6040, 0), Some(DataValue::Unsigned16(0x0201)));
    assert_eq!(value(&node, 0x607A, 0), Some(DataValue::Integer32(7)));
}

#[test]
fn rpdo_passes_over_what_it_cannot_map() {
    let mut node = node_with(
        1,
        &[
            (0x1600, 0, DataValue::Unsigned8(4)),
            // No such entry.
            (0x1600, 1, DataValue::Unsigned32(0x5000_0008)),
            // The entry is wider than the record says.
            (0x1600, 2, DataValue::Unsigned32(0x6040_0008)),
            // A record that is no Unsigned32.
            (0x1600, 3, DataValue::Unsigned16(0x0010)),
            (0x1600, 4, DataValue::Unsigned32(0x6060_0008)),
            (0x6040, 0, DataValue::Unsigned16(7)),
            (0x6060, 0, DataValue::Integer8(0)),
        ],
    );
    node.parse_rpdo(1, &[0x06, 0x99]);
    assert_eq!(value(&node, 0x6040, 0), Some(DataValue::Unsigned16(7)));
    assert_eq!(value(&node, 0x6060, 0), Some(DataValue::Integer8(6)));
}

#[test]
fn rpdo_honours_the_count() {
    let mut node = node_with(
        1,
        &[
            (0x1600, 0, DataValue::Unsigned8(1)),
            (0x1600, 1, DataValue::Unsigned32(0x2000_0008)),
            (0x1600, 2, DataValue::Unsigned32(0x2001_0008)),
            (0x2000, 0, DataValue::Unsigned8(0)),
            (0x2001, 0, DataValue::Unsigned8(0)),
        ],
    );
    node.parse_rpdo(1, &[1, 2]);
    assert_eq!(value(&node, 0x2000, 0), Some(DataValue::Unsigned8(1)));
    assert_eq!(value(&node, 0x2001, 0), Some(DataValue::Unsigned8(0)));
    // A count that is no Unsigned8 counts as none.
    let mut node = node_with(
        1,
        &[
            (0x1600, 0, DataValue::Unsigned16(1)),
            (0x1600, 1, DataValue::Unsigned32(0x2000_0008)),
            (0x2000, 0, DataValue::Unsigned8(0)),
        ],
    );
    node.parse_rpdo(1, &[1]);
    assert_eq!(value(&node, 0x2000, 0), Some(DataValue::Unsigned8(0)));
}

#[test]
fn rpdo_keeps_the_tags() {
    let mut node = node_with(
        1,
        &[
            (0x1600, 0, DataValue::Unsigned8(2)),
            (0x1600, 1, DataValue::Unsigned32(0x2000_0010)),
            (0x1600, 2, DataValue::Unsigned32(0x2001_0008)),
            (0x2000, 0, DataValue::Integer16(0)),
            (0x2001, 0, DataValue::Integer8(0)),
        ],
    );
    node.handle_frame(0x201, &[0xFF, 0xFF, 0x80]);
    assert_eq!(value(&node, 0x2000, 0), Some(DataValue::Integer16(-1)));
    assert_eq!(value(&node, 0x2001, 0), Some(DataValue::Integer8(-128)));
    assert_eq!(node.eds_data.od.len(), 5);
    assert_eq!(node.eds_data.od.get(0x2000, 0).unwrap().parameter_name, "entry");
}

#[test]
fn sync_emits_the_transmit_pdo() {
    let mut node = node_with(
        1,
        &[
            (0x1800, 1, DataValue::Unsigned32(0x0000_0180)),
            (0x1800, 2, DataValue::Unsigned8(1)),
            (0x1A00, 0, DataValue::Unsigned8(1)),
            (0x1A00, 1, DataValue::Unsigned32(0x6041_0010)),
            (0x6041, 0, DataValue::Unsigned16(0x0237)),
        ],
    );
    let frames = node.handle_frame(0x080, &[]);
    assert_eq!(frames.len(), 1);
    assert_eq!(frames[0].cob_id, 0x181);
    assert_eq!(frames[0].data, vec![0x37, 0x02]);
    assert_eq!(value(&node, 0x6041, 0), Some(DataValue::Unsigned16(0x0237)));
}

#[test]
fn sync_emits_in_ascending_order() {
    let mut entries = Vec::new();
    for k in [2u16, 0, 5] {
        entries.push((0x1800 + k, 1, DataValue::Unsigned32(0x180 + 0x100 * k as u32)));
        entries.push((0x1800 + k, 2, DataValue::Unsigned8(1)));
        entries.push((0x1A00 + k, 0, DataValue::Unsigned8(1)));
        entries.push((0x1A00 + k, 1, DataValue::Unsigned32(0x2000_0008 + 0x1_0000 * k as u32)));
        entries.push((0x2000 + k, 0, DataValue::Unsigned8(0x10 + k as u8)));
    }
    let node = node_with(0x11, &entries);
    let frames = node.parse_sync();
    assert_eq!(frames.len(), 3);
    assert_eq!((frames[0].cob_id, frames[0].data.clone()), (0x191, vec![0x10]));
    assert_eq!((frames[1].cob_id, frames[1].data.clone()), (0x391, vec![0x12]));
    assert_eq!((frames[2].cob_id, frames[2].data.clone()), (0x691, vec![0x15]));
}

#[test]
fn sync_skips_what_is_not_due() {
    let mapping = [
        (0x1A00, 0, DataValue::Unsigned8(1)),
        (0x1A00, 1, DataValue::Unsigned32(0x2000_0008)),
        (0x2000, 0, DataValue::Unsigned8(1)),
    ];
    let with = |parameters: &[(u16, u8, DataValue)]| {
        let mut entries = mapping.to_vec();
        entries.extend_from_slice(parameters);
        node_with(1, &entries).parse_sync().len()
    };
    // Disabled by bit 31.
    assert_eq!(
        with(&[(0x1800, 1, DataValue::Unsigned32(0x8000_0180)), (0x1800, 2, DataValue::Unsigned8(1))]),
        0
    );
    // Other transmission types.
    for kind in [0u8, 2, 240, 254, 255] {
        assert_eq!(
            with(&[(0x1800, 1, DataValue::Unsigned32(0x180)), (0x1800, 2, DataValue::Unsigned8(kind))]),
            0
        );
    }
    // No communication parameters, or of another type.
    assert_eq!(with(&[]), 0);
    assert_eq!(with(&[(0x1800, 1, DataValue::Unsigned32(0x180))]), 0);
    assert_eq!(with(&[(0x1800, 2, DataValue::Unsigned8(1))]), 0);
    assert_eq!(
        with(&[(0x1800, 1, DataValue::Unsigned16(0x180)), (0x1800, 2, DataValue::Unsigned8(1))]),
        0
    );
    // And the one that is due.
    assert_eq!(
        with(&[(0x1800, 1, DataValue::Unsigned32(0x180)), (0x1800, 2, DataValue::Unsigned8(1))]),
        1
    );
}

#[test]
fn sync_needs_a_mapping() {
    let parameters = [
        (0x1800, 1, DataValue::Unsigned32(0x180)),
        (0x1800, 2, DataValue::Unsigned8(1)),
        (0x2000, 0, DataValue::Unsigned8(1)),
    ];
    // No count.
    let mut entries = parameters.to_vec();
    entries.push((0x1A00, 1, DataValue::Unsigned32(0x2000_0008)));
    assert!(node_with(1, &entries).parse_sync().is_empty());
    // A count of none.
    entries.push((0x1A00, 0, DataValue::Unsigned8(0)));
    assert!(node_with(1, &entries).parse_sync().is_empty());
    // A record that maps nothing still makes a frame, an empty one.
    let mut entries = parameters.to_vec();
    entries.push((0x1A00, 0, DataValue::Unsigned8(1)));
    entries.push((0x1A00, 1, DataValue::Unsigned32(0x5000_0008)));
    let frames = node_with(1, &entries).parse_sync();
    assert_eq!(frames.len(), 1);
    assert!(frames[0].data.is_empty());
}

#[test]
fn sync_gathers_by_declared_width() {
    let node = node_with(
        2,
        &[
            (0x1801, 1, DataValue::Unsigned32(0x282)),
            (0x1801, 2, DataValue::Unsigned8(1)),
            (0x1A01, 0, DataValue::Unsigned8(4)),
            (0x1A01, 1, DataValue::Unsigned32(0x6064_0020)),
            // Declared too narrow: passed over without padding.
            (0x1A01, 2, DataValue::Unsigned32(0x6041_0008)),
            (0x1A01, 3, DataValue::Unsigned32(0x6061_0008)),
            (0x1A01, 4, DataValue::Unsigned32(0x6041_0010)),
            (0x6041, 0, DataValue::Unsigned16(0x1234)),
            (0x6061, 0, DataValue::Integer8(-1)),
            (0x6064, 0, DataValue::Integer32(-2)),
        ],
    );
    let frames = node.parse_sync();
    assert_eq!(frames.len(), 1);
    assert_eq!(frames[0].cob_id, 0x282);
    assert_eq!(frames[0].data, vec![0xFE, 0xFF, 0xFF, 0xFF, 0xFF, 0x34, 0x12]);
    assert!(frames[0].is_transmittable());
}

#[test]
fn eighth_transmit_pdo_is_beyond_the_standard_identifiers() {
    let node = node_with(
        1,
        &[
            (0x1807, 1, DataValue::Unsigned32(0x881)),
            (0x1807, 2, DataValue::Unsigned8(1)),
            (0x1A07, 0, DataValue::Unsigned8(1)),
            (0x1A07, 1, DataValue::Unsigned32(0x2000_0008)),
            (0x2000, 0, DataValue::Unsigned8(1)),
        ],
    );
    let frames = node.parse_sync();
    assert_eq!(frames.len(), 1);
    assert_eq!(frames[0].cob_id, 0x881);
    assert!(!frames[0].is_transmittable());
}

#[test]
fn what_an_rpdo_brought_a_tpdo_sends() {
    let mut node = node_with(
        4,
        &[
            (0x1600, 0, DataValue::Unsigned8(3)),
            (0x1600, 1, DataValue::Unsigned32(0x6040_0010)),
            (0x1600, 2, DataValue::Unsigned32(0x607A_0020)),
            (0x1600, 3, DataValue::Unsigned32(0x6060_0008)),
            (0x1800, 1, DataValue::Unsigned32(0x184)),
            (0x1800, 2, DataValue::Unsigned8(1)),
            (0x1A00, 0, DataValue::Unsigned8(3)),
            (0x1A00, 1, DataValue::Unsigned32(0x6040_0010)),
            (0x1A00, 2, DataValue::Unsigned32(0x607A_0020)),
            (0x1A00, 3, DataValue::Unsigned32(0x6060_0008)),
            (0x6040, 0, DataValue::Unsigned16(0)),
            (0x6060, 0, DataValue::Integer8(0)),
            (0x607A, 0, DataValue::Integer32(0)),
        ],
    );
    let payload = [0x1F, 0x00, 0x10, 0x0E, 0x00, 0x80, 0x03];
    assert!(node.handle_frame(0x204, &payload).is_empty());
    let frames = node.handle_frame(0x080, &[]);
    assert_eq!(frames.len(), 1);
    assert_eq!(frames[0].cob_id, 0x184);
    assert_eq!(frames[0].data, payload);
}

#[test]
fn emergency_and_foreign_frames_change_nothing() {
    let mut node = node_with(1, &[(0x6040, 0, DataValue::Unsigned16(7))]);
    assert!(node.handle_frame(0x081, &[1, 2, 3, 4, 5, 6, 7, 8]).is_empty());
    assert!(node.handle_frame(0x202, &[1, 2]).is_empty());
    assert!(node.handle_frame(0x181, &[1, 2]).is_empty());
    assert!(node.handle_frame(0x701, &[5]).is_empty());
    assert_eq!(value(&node, 0x6040, 0), Some(DataValue::Unsigned16(7)));
    assert_eq!(node.nmt_state, NmtState::Initializing);
}
