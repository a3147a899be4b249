use canopen_drive::config::{BusConfig, Config, ConfigError, Node};
use canopen_drive::eds::{DataType, DataValue, Var};
use canopen_drive::frame::Frame;
use canopen_drive::motion::MotionMap;
use canopen_drive::od::ObjectDictionary;
use canopen_drive::sorted_map::{Slot, SortedMap};

fn var(value: DataValue) -> Var {
    Var {
        parameter_name: String::from("name"),
        access_type: String::from("ro"),
        value,
        pdo_mapping: false,
    }
}

#[test]
fn sorted_map_keeps_its_keys_in_order() {
    let mut map: SortedMap<&str> = SortedMap::new();
    assert_eq!(map.len(), 0);
    assert_eq!(map.search(5), Slot::Vacant(0));
    assert_eq!(map.floor(5), None);
    for (key, value) in [(50, "e"), (10, "a"), (30, "c"), (20, "b"), (40, "d"), (30, "C")] {
        map.insert(key, value);
    }
    assert_eq!(map.len(), 5);
    for (i, key) in [10u64, 20, 30, 40, 50].into_iter().enumerate() {
        assert_eq!(map.key_at(i), key);
        assert_eq!(map.search(key), Slot::Found(i));
        assert!(map.contains_key(key));
    }
    assert_eq!(map.get(30), Some(&"C"));
    assert_eq!(*map.value_at(0), "a");
    assert_eq!(map.get(35), None);
    assert!(!map.contains_key(0));
    assert_eq!(map.search(0), Slot::Vacant(0));
    assert_eq!(map.search(35), Slot::Vacant(3));
    assert_eq!(map.search(u64::MAX), Slot::Vacant(5));
    assert_eq!(map.floor(9), None);
    assert_eq!(map.floor(10), Some(0));
    assert_eq!(map.floor(29), Some(1));
    assert_eq!(map.floor(u64::MAX), Some(4));
    assert_eq!(map.replace_at(1, "B"), "b");
    assert_eq!(map.get(20), Some(&"B"));
    assert_eq!(map.len(), 5);
}

#[test]
fn dictionary_entries_are_found_by_index_and_sub_index() {
    let mut od = ObjectDictionary::new();
    assert_eq!(od.len(), 0);
    assert!(od.get(0x1000, 0).is_none());
    od.insert(0x6040, 0, var(DataValue::Unsigned16(1)));
    od.insert(0x1000, 2, var(DataValue::Unsigned8(2)));
    od.insert(0x1000, 1, var(DataValue::Integer8(3)));
    od.insert(0xFFFF, 0xFF, var(DataValue::Boolean(true)));
    od.insert(0, 0, var(DataValue::Unknown(0)));
    assert_eq!(od.len(), 5);
    assert_eq!(od.get_value(0x1000, 1), Some(DataValue::Integer8(3)));
    assert_eq!(od.get_value(0x1000, 2), Some(DataValue::Unsigned8(2)));
    assert_eq!(od.get_value(0x1000, 0), None);
    assert_eq!(od.get_value(0x1001, 1), None);
    assert_eq!(od.get_value(0xFFFF, 0xFF), Some(DataValue::Boolean(true)));
    assert_eq!(od.get(0x6040, 0).unwrap().parameter_name, "name");
    let keys: Vec<(u16, u8)> = (0..od.len()).map(|i| od.key_at(i)).collect();
    assert_eq!(keys, vec![(0, 0), (0x1000, 1), (0x1000, 2), (0x6040, 0), (0xFFFF, 0xFF)]);
    // Seeding again replaces, whatever the type.
    od.insert(0x1000, 1, var(DataValue::Unsigned32(9)));
    assert_eq!(od.len(), 5);
    assert_eq!(od.get_value(0x1000, 1), Some(DataValue::Unsigned32(9)));
}

#[test]
fn a_write_needs_the_type_of_the_entry() {
    let mut od = ObjectDictionary::new();
    od.insert(0x6040, 0, var(DataValue::Unsigned16(1)));
    assert!(od.mutate(0x6040, 0, DataValue::Unsigned16(0xBEEF)));
    assert_eq!(od.get_value(0x6040, 0), Some(DataValue::Unsigned16(0xBEEF)));
    let all = [
        DataValue::Unknown(1),
        DataValue::Boolean(true),
        DataValue::Integer8(1),
        DataValue::Integer16(1),
        DataValue::Integer32(1),
        DataValue::Unsigned8(1),
        DataValue::Unsigned32(1),
        DataValue::Real32(1),
    ];
    for value in all {
        assert!(!od.mutate(0x6040, 0, value));
    }
    assert!(!od.mutate(0x6040, 1, DataValue::Unsigned16(2)));
    assert!(!od.mutate(0x6041, 0, DataValue::Unsigned16(2)));
    assert_eq!(od.get_value(0x6040, 0), Some(DataValue::Unsigned16(0xBEEF)));
    let entry = od.get(0x6040, 0).unwrap();
    assert_eq!(entry.parameter_name, "name");
    assert_eq!(entry.access_type, "ro");
    assert_eq!(od.len(), 1);
}

#[test]
fn tags_and_widths() {
    let table = [
        (DataValue::Unknown(0), DataType::Unknown, 0usize),
        (DataValue::Boolean(false), DataType::Boolean, 0),
        (DataValue::Integer8(0), DataType::Integer8, 1),
        (DataValue::Integer16(0), DataType::Integer16, 2),
        (DataValue::Integer32(0), DataType::Integer32, 4),
        (DataValue::Unsigned8(0), DataType::Unsigned8, 1),
        (DataValue::Unsigned16(0), DataType::Unsigned16, 2),
        (DataValue::Unsigned32(0), DataType::Unsigned32, 4),
        (DataValue::Real32(0), DataType::Real32, 0),
    ];
    for (value, tag, width) in table {
        assert_eq!(value.data_type(), tag);
        assert_eq!(tag.wire_width(), width);
        assert_eq!(value.wire_bytes().len(), width);
    }
}

#[test]
fn values_on_the_wire() {
    assert_eq!(DataValue::Unsigned16(0x0237).wire_bytes(), vec![0x37, 0x02]);
    assert_eq!(DataValue::Unsigned32(0x0102_0304).wire_bytes(), vec![4, 3, 2, 1]);
    assert_eq!(DataValue::Integer8(-1).wire_bytes(), vec![0xFF]);
    assert_eq!(DataValue::Integer16(-2).wire_bytes(), vec![0xFE, 0xFF]);
    assert_eq!(DataValue::Integer32(i32::MIN).wire_bytes(), vec![0, 0, 0, 0x80]);
    assert_eq!(DataValue::Boolean(true).wire_bytes(), Vec::<u8>::new());
    let bytes = [0xAA, 0x37, 0x02, 0xFF, 0xFF, 0xFF];
    assert_eq!(DataValue::read_wire(DataType::Unsigned16, &bytes, 1), Some(DataValue::Unsigned16(0x0237)));
    assert_eq!(DataValue::read_wire(DataType::Unsigned8, &bytes, 5), Some(DataValue::Unsigned8(0xFF)));
    assert_eq!(DataValue::read_wire(DataType::Integer8, &bytes, 5), Some(DataValue::Integer8(-1)));
    assert_eq!(DataValue::read_wire(DataType::Integer16, &bytes, 4), Some(DataValue::Integer16(-1)));
    assert_eq!(
        DataValue::read_wire(DataType::Integer32, &bytes, 2),
        Some(DataValue::Integer32(-254))
    );
    assert_eq!(
        DataValue::read_wire(DataType::Unsigned32, &bytes, 0),
        Some(DataValue::Unsigned32(0xFF02_37AA))
    );
    // Too few bytes, or a type without wire form.
    assert_eq!(DataValue::read_wire(DataType::Unsigned16, &bytes, 5), None);
    assert_eq!(DataValue::read_wire(DataType::Unsigned32, &bytes, 3), None);
    assert_eq!(DataValue::read_wire(DataType::Unsigned8, &bytes, 6), None);
    assert_eq!(DataValue::read_wire(DataType::Boolean, &bytes, 0), None);
    assert_eq!(DataValue::read_wire(DataType::Real32, &bytes, 0), None);
    assert_eq!(DataValue::read_wire(DataType::Unknown, &bytes, 0), None);
}

#[test]
fn a_trajectory_is_walked_in_order_of_time() {
    let map = MotionMap::from_samples(&vec![(0, 0), (30, 7), (10, 2), (30, 9), (20, 5), (10, 3)])
        .unwrap();
    assert_eq!(map.len(), 4);
    let times: Vec<u64> = (0..map.len()).map(|i| map.time_at(i)).collect();
    assert_eq!(times, vec![0, 10, 20, 30]);
    // The later sample of a time stays.
    assert_eq!(map.get(10), Some(3));
    assert_eq!(map.get(30), Some(9));
    assert_eq!(map.get(15), None);
    assert_eq!(map.end_time(), 30);
    assert_eq!(map.position_at(0), Some(0));
    assert_eq!(map.position_at(9), Some(0));
    assert_eq!(map.position_at(10), Some(3));
    assert_eq!(map.position_at(29), Some(5));
    assert_eq!(map.position_at(30), Some(9));
    assert_eq!(map.position_at(u64::MAX), Some(9));
    assert!(MotionMap::from_samples(&Vec::new()).is_none());
}

#[test]
fn a_trajectory_may_start_late() {
    let map = MotionMap::single(5, -1).with_point(7, -2).with_point(5, -3);
    assert_eq!(map.len(), 2);
    assert_eq!(map.position_at(4), None);
    assert_eq!(map.position_at(5), Some(-3));
    assert_eq!(map.position_at(6), Some(-3));
    assert_eq!(map.end_time(), 7);
}

#[test]
fn frames_that_the_bus_can_carry() {
    assert!(Frame { cob_id: 0x7FF, data: vec![0; 8] }.is_transmittable());
    assert!(Frame { cob_id: 0, data: vec![] }.is_transmittable());
    assert!(!Frame { cob_id: 0x800, data: vec![] }.is_transmittable());
    assert!(!Frame { cob_id: 0x181, data: vec![0; 9] }.is_transmittable());
}

#[test]
fn node_ids_of_a_configuration() {
    let config = |ids: &[u8]| Config {
        bus: BusConfig { interface: String::from("can0"), baud_rate: 1_000_000 },
        node: ids
            .iter()
            .map(|id| Node { node_id: *id, eds_file: String::from("drive.eds") })
            .collect(),
    };
    assert_eq!(config(&[]).validate(), Ok(()));
    assert_eq!(config(&[1, 2, 127]).validate(), Ok(()));
    assert_eq!(config(&[0]).validate(), Err(ConfigError::NodeIdOutOfRange(0)));
    assert_eq!(config(&[1, 128, 0]).validate(), Err(ConfigError::NodeIdOutOfRange(1)));
    assert_eq!(config(&[1, 2, 255]).validate(), Err(ConfigError::NodeIdOutOfRange(2)));
    assert!(Node { node_id: 127, eds_file: String::new() }.has_valid_id());
    assert!(!Node { node_id: 128, eds_file: String::new() }.has_valid_id());
}
