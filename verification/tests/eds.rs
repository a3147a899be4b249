use canopen_drive::eds::{
    get_data_type, get_dataval, get_val, parse_default_value, parse_eds, parse_section,
    parse_str_to_bool, parse_str_to_u32, parse_str_to_u8, seed_eds, set_dataval, DataType,
    DataValue, EdsParseError,
};
use canopen_drive::sheet::{find_section, load_sections, Property, Section};
use canopen_drive::text::{contains, parse_integer, skip_leading, starts_with_at, to_chars};

const SHEET: &str = "\
[FileInfo]
FileName=drive.eds
FileVersion=1
FileRevision=2
EDSVersion=4.0
Description=A drive
CreatedBy=someone

[DeviceInfo]
VendorName=ACME
VendorNumber=42
ProductName=Drive
ProductNumber=0x10

[1000]
ParameterName=Device type
ObjectType=0x7
DataType=0x0007
AccessType=ro
DefaultValue=0x00020192
PDOMapping=0

[1018]
ParameterName=Identity object
ObjectType=0x9
SubNumber=2

[1018sub0]
ParameterName=Number of entries
ObjectType=0x7
DataType=0x0005
AccessType=ro
DefaultValue=1
PDOMapping=0

[1800sub1]
ParameterName=COB-ID
ObjectType=0x7
DataType=0x0007
AccessType=rw
DefaultValue=$NODEID+0x180
PDOMapping=0

[1800sub2]
ParameterName=Transmission type
ObjectType=0x7
DataType=0x0005
AccessType=rw
DefaultValue=0xFF
PDOMapping=0

[6040]
ParameterName=Controlword
ObjectType=0x7
DataType=0x0006
AccessType=rw
PDOMapping=1

[6060]
ParameterName=Modes of operation
ObjectType=7
DataType=0x0002
AccessType=rw
DefaultValue=-1
PDOMapping=1

[607A]
ParameterName=Target position
ObjectType=0x7
DataType=0x0004
AccessType=rw
DefaultValue=-3600
PDOMapping=1

[2000sub1A]
ParameterName=Gain
ObjectType=0x7
DataType=0x0008
AccessType=rw
DefaultValue=1.5
PDOMapping=0

[2001]
ParameterName=Flag
ObjectType=0x7
DataType=0x0001
AccessType=rw
DefaultValue=true
PDOMapping=0

[2002]
ParameterName=Text
ObjectType=0x7
DataType=0x0009
AccessType=rw
DefaultValue=hello
PDOMapping=0
";

fn chars(text: &str) -> Vec<char> {
    text.chars().collect()
}

#[test]
fn data_type_codes() {
    assert_eq!(get_data_type(&0x0001), DataType::Boolean);
    assert_eq!(get_data_type(&0x0002), DataType::Integer8);
    assert_eq!(get_data_type(&0x0003), DataType::Integer16);
    assert_eq!(get_data_type(&0x0004), DataType::Integer32);
    assert_eq!(get_data_type(&0x0005), DataType::Unsigned8);
    assert_eq!(get_data_type(&0x0006), DataType::Unsigned16);
    assert_eq!(get_data_type(&0x0007), DataType::Unsigned32);
    assert_eq!(get_data_type(&0x0008), DataType::Real32);
    assert_eq!(get_data_type(&0x0000), DataType::Unknown);
    assert_eq!(get_data_type(&0x0009), DataType::Unknown);
}

#[test]
fn a_data_sheet_seeds_the_dictionary() {
    let data = parse_eds(&5, SHEET).unwrap();
    assert_eq!(data.file_info.file_name, "drive.eds");
    assert_eq!(data.file_info.file_version, 1);
    assert_eq!(data.file_info.file_revision, 2);
    assert_eq!(data.file_info.eds_version, "4.0");
    assert_eq!(data.file_info.description, "A drive");
    assert_eq!(data.file_info.created_by, "someone");
    assert_eq!(data.device_info.vendor_name, "ACME");
    assert_eq!(data.device_info.vendor_number, 42);
    assert_eq!(data.device_info.product_name, "Drive");
    // Numbers of the device information are decimal; what is not counts as 0.
    assert_eq!(data.device_info.product_number, 0);

    assert_eq!(data.od.len(), 10);
    assert_eq!(data.od.get_value(0x1000, 0), Some(DataValue::Unsigned32(0x0002_0192)));
    assert_eq!(data.od.get_value(0x1018, 0), Some(DataValue::Unsigned8(1)));
    assert_eq!(data.od.get_value(0x1800, 1), Some(DataValue::Unsigned32(0x185)));
    assert_eq!(data.od.get_value(0x1800, 2), Some(DataValue::Unsigned8(0xFF)));
    assert_eq!(data.od.get_value(0x6040, 0), Some(DataValue::Unsigned16(0)));
    assert_eq!(data.od.get_value(0x6060, 0), Some(DataValue::Integer8(-1)));
    assert_eq!(data.od.get_value(0x607A, 0), Some(DataValue::Integer32(-3600)));
    assert_eq!(data.od.get_value(0x2000, 0x1A), Some(DataValue::Real32(0)));
    assert_eq!(data.od.get_value(0x2001, 0), Some(DataValue::Boolean(true)));
    assert_eq!(data.od.get_value(0x2002, 0), Some(DataValue::Unknown(0)));
    assert_eq!(data.od.get_value(0x1018, 1), None);

    let controlword = data.od.get(0x6040, 0).unwrap();
    assert_eq!(controlword.parameter_name, "Controlword");
    assert_eq!(controlword.access_type, "rw");
    assert!(controlword.pdo_mapping);
    assert!(!data.od.get(0x1000, 0).unwrap().pdo_mapping);

    assert_eq!(data.real32_defaults.len(), 1);
    assert_eq!(data.real32_defaults[0].index, 0x2000);
    assert_eq!(data.real32_defaults[0].sub_index, 0x1A);
    assert_eq!(data.real32_defaults[0].text, "1.5");
}

#[test]
fn entries_come_in_ascending_order() {
    let data = parse_eds(&5, SHEET).unwrap();
    let mut keys = Vec::new();
    for i in 0..data.od.len() {
        keys.push(data.od.key_at(i));
    }
    assert_eq!(
        keys,
        vec![
            (0x1000, 0),
            (0x1018, 0),
            (0x1800, 1),
            (0x1800, 2),
            (0x2000, 0x1A),
            (0x2001, 0),
            (0x2002, 0),
            (0x6040, 0),
            (0x6060, 0),
            (0x607A, 0)
        ]
    );
}

#[test]
fn the_node_id_is_set_in_identifiers() {
    assert_eq!(parse_eds(&0x7F, SHEET).unwrap().od.get_value(0x1800, 1), Some(DataValue::Unsigned32(0x1FF)));
    assert_eq!(parse_eds(&1, SHEET).unwrap().od.get_value(0x1800, 1), Some(DataValue::Unsigned32(0x181)));
}

#[test]
fn sections_are_read_in_the_order_of_the_file() {
    let sections = load_sections("top=1\n[B]\nx=1\ny=2\nx=3\n[A]\nz=9\n[B]\nx=7\n").unwrap();
    let names: Vec<Option<String>> = sections.iter().map(|s| s.name.clone()).collect();
    assert_eq!(names, vec![None, Some(String::from("B")), Some(String::from("A"))]);
    let b = find_section(&sections, &String::from("B")).unwrap();
    assert_eq!(b.get(&String::from("x")).unwrap(), "1");
    assert_eq!(b.get(&String::from("y")).unwrap(), "2");
    assert!(b.get(&String::from("z")).is_none());
    assert!(find_section(&sections, &String::from("C")).is_none());
    assert!(load_sections("[unclosed\nx=1\n").is_none());
}

#[test]
fn what_is_wrong_with_a_data_sheet() {
    assert_eq!(parse_eds(&1, "[unclosed\n").unwrap_err(), EdsParseError::Syntax);
    assert_eq!(parse_eds(&1, "").unwrap_err(), EdsParseError::MissingFileInfo);
    assert_eq!(parse_eds(&1, "[DeviceInfo]\n").unwrap_err(), EdsParseError::MissingFileInfo);
    assert_eq!(parse_eds(&1, "[FileInfo]\n").unwrap_err(), EdsParseError::MissingDeviceInfo);
    let head = "[FileInfo]\n[DeviceInfo]\n";
    assert_eq!(
        parse_eds(&1, &format!("{head}[1000]\nObjectType=var\n")).unwrap_err(),
        EdsParseError::ObjectType
    );
    assert_eq!(
        parse_eds(&1, &format!("{head}[1000]\nObjectType=0x100\n")).unwrap_err(),
        EdsParseError::ObjectType
    );
    // The data type is looked at even where the object is no variable.
    assert_eq!(
        parse_eds(&1, &format!("{head}[1000]\nObjectType=0x9\nDataType=u8\n")).unwrap_err(),
        EdsParseError::DataType
    );
    assert_eq!(
        parse_eds(&1, &format!("{head}[1000]\nObjectType=0x7\nDataType=0x5\nDefaultValue=256\n"))
            .unwrap_err(),
        EdsParseError::DefaultValue(DataType::Unsigned8)
    );
    // The default of what is no variable is not looked at.
    assert!(parse_eds(&1, &format!("{head}[1000]\nObjectType=0x9\nDataType=0x5\nDefaultValue=256\n")).is_ok());
    // The first thing that is wrong is named.
    assert_eq!(
        parse_eds(&1, &format!("{head}[1000]\nDataType=x\n[1001]\nObjectType=y\n")).unwrap_err(),
        EdsParseError::DataType
    );
}

#[test]
fn a_later_section_replaces_an_earlier_one_at_the_same_address() {
    let head = "[FileInfo]\n[DeviceInfo]\n";
    let body = "[1000]\nObjectType=7\nDataType=5\nDefaultValue=1\n[1000sub0]\nObjectType=7\nDataType=6\nDefaultValue=2\n[zzzz]\nObjectType=7\nDataType=5\nDefaultValue=3\n";
    let data = parse_eds(&1, &format!("{head}{body}")).unwrap();
    assert_eq!(data.od.len(), 2);
    assert_eq!(data.od.get_value(0x1000, 0), Some(DataValue::Unsigned16(2)));
    // A name that is no address stands for the entry (0, 0).
    assert_eq!(data.od.get_value(0, 0), Some(DataValue::Unsigned8(3)));
}

#[test]
fn sections_given_by_hand_seed_too() {
    let property = |key: &str, value: &str| Property { key: String::from(key), value: String::from(value) };
    let sections = vec![
        Section { name: None, properties: vec![property("ObjectType", "nonsense")] },
        Section { name: Some(String::from("FileInfo")), properties: vec![property("FileVersion", "7")] },
        Section { name: Some(String::from("DeviceInfo")), properties: vec![] },
        Section {
            name: Some(String::from("6041")),
            properties: vec![
                property("ObjectType", "0x7"),
                property("DataType", "0x0006"),
                property("DefaultValue", "0x0237"),
                property("DefaultValue", "0"),
            ],
        },
    ];
    let data = seed_eds(1, &sections).unwrap();
    assert_eq!(data.file_info.file_version, 7);
    assert_eq!(data.od.len(), 1);
    assert_eq!(data.od.get_value(0x6041, 0), Some(DataValue::Unsigned16(0x0237)));
}

#[test]
fn section_names_are_addresses() {
    assert_eq!(parse_section("1000"), (0x1000, 0));
    assert_eq!(parse_section("1A00sub2"), (0x1A00, 2));
    assert_eq!(parse_section("1a00sub2"), (0x1A00, 2));
    assert_eq!(parse_section("1000sub10"), (0x1000, 0x10));
    assert_eq!(parse_section("1000subFF"), (0x1000, 0xFF));
    assert_eq!(parse_section("1000sub100"), (0x1000, 0));
    assert_eq!(parse_section("1000subZZ"), (0x1000, 0));
    assert_eq!(parse_section("1000sub"), (0x1000, 0));
    assert_eq!(parse_section("1000Sub1"), (0x1000, 0));
    assert_eq!(parse_section("1000x"), (0x1000, 0));
    assert_eq!(parse_section("FileInfo"), (0, 0));
    assert_eq!(parse_section("FFFFsub1"), (0xFFFF, 1));
    assert_eq!(parse_section("abc"), (0, 0));
    assert_eq!(parse_section(""), (0, 0));
    assert_eq!(parse_section("+100sub1"), (0x100, 1));
    assert_eq!(parse_section("10é0sub1"), (0, 0));
}

#[test]
fn flags_and_numbers_of_a_data_sheet() {
    assert!(parse_str_to_bool("1"));
    assert!(!parse_str_to_bool("0"));
    assert!(!parse_str_to_bool(""));
    assert!(!parse_str_to_bool("true"));
    assert!(!parse_str_to_bool("11"));
    assert_eq!(parse_str_to_u8("0x7"), Some(7));
    assert_eq!(parse_str_to_u8("7"), Some(7));
    assert_eq!(parse_str_to_u8("10"), Some(0x10));
    assert_eq!(parse_str_to_u8("0xFF"), Some(0xFF));
    assert_eq!(parse_str_to_u8("0x0xFF"), Some(0xFF));
    assert_eq!(parse_str_to_u8("0x100"), None);
    assert_eq!(parse_str_to_u8(""), None);
    assert_eq!(parse_str_to_u8("0x"), None);
    assert_eq!(parse_str_to_u8("-1"), None);
    assert_eq!(parse_str_to_u8(" 7"), None);
    assert_eq!(parse_str_to_u32("0x0007"), Some(7));
    assert_eq!(parse_str_to_u32("FFFFFFFF"), Some(0xFFFF_FFFF));
    assert_eq!(parse_str_to_u32("100000000"), None);
    assert_eq!(parse_str_to_u32("0xg"), None);
}

#[test]
fn defaults_of_every_type() {
    let ok = |data_type, text: &str| parse_default_value(3, data_type, text).unwrap();
    assert_eq!(ok(DataType::Unknown, "whatever"), DataValue::Unknown(0));
    assert_eq!(ok(DataType::Boolean, "true"), DataValue::Boolean(true));
    assert_eq!(ok(DataType::Boolean, "false"), DataValue::Boolean(false));
    assert_eq!(ok(DataType::Integer8, "-128"), DataValue::Integer8(-128));
    assert_eq!(ok(DataType::Integer8, "127"), DataValue::Integer8(127));
    assert_eq!(ok(DataType::Integer8, "0x7F"), DataValue::Integer8(127));
    assert_eq!(ok(DataType::Integer8, "+5"), DataValue::Integer8(5));
    assert_eq!(ok(DataType::Integer16, "-32768"), DataValue::Integer16(i16::MIN));
    assert_eq!(ok(DataType::Integer16, "0x7fff"), DataValue::Integer16(i16::MAX));
    assert_eq!(ok(DataType::Integer32, "-2147483648"), DataValue::Integer32(i32::MIN));
    assert_eq!(ok(DataType::Integer32, "2147483647"), DataValue::Integer32(i32::MAX));
    assert_eq!(ok(DataType::Integer32, "0x10"), DataValue::Integer32(16));
    assert_eq!(ok(DataType::Unsigned8, "255"), DataValue::Unsigned8(255));
    assert_eq!(ok(DataType::Unsigned8, "0x0x10"), DataValue::Unsigned8(16));
    assert_eq!(ok(DataType::Unsigned8, "007"), DataValue::Unsigned8(7));
    assert_eq!(ok(DataType::Unsigned16, "65535"), DataValue::Unsigned16(u16::MAX));
    assert_eq!(ok(DataType::Unsigned16, "0xABCD"), DataValue::Unsigned16(0xABCD));
    assert_eq!(ok(DataType::Unsigned16, "$NODEID+0x200"), DataValue::Unsigned16(0x203));
    assert_eq!(ok(DataType::Unsigned32, "4294967295"), DataValue::Unsigned32(u32::MAX));
    assert_eq!(ok(DataType::Unsigned32, "0xFFFFFFFF"), DataValue::Unsigned32(u32::MAX));
    assert_eq!(ok(DataType::Unsigned32, "$NODEID+0x600"), DataValue::Unsigned32(0x603));
    assert_eq!(ok(DataType::Unsigned32, "$NODEID+0x601"), DataValue::Unsigned32(0x603));
    assert_eq!(ok(DataType::Real32, "1.5"), DataValue::Real32(0));
    // Nothing stands for 0.
    assert_eq!(ok(DataType::Unsigned8, ""), DataValue::Unsigned8(0));
    assert_eq!(ok(DataType::Integer32, ""), DataValue::Integer32(0));
    assert_eq!(ok(DataType::Unsigned32, ""), DataValue::Unsigned32(0));
}

#[test]
fn defaults_that_write_no_value() {
    let cases = [
        (DataType::Boolean, "1"),
        (DataType::Boolean, "True"),
        (DataType::Boolean, ""),
        (DataType::Integer8, "128"),
        (DataType::Integer8, "-129"),
        (DataType::Integer8, "0x80"),
        (DataType::Integer8, "-"),
        (DataType::Integer8, "1 "),
        (DataType::Integer16, "32768"),
        (DataType::Integer32, "2147483648"),
        (DataType::Integer32, "99999999999999999999999"),
        (DataType::Unsigned8, "256"),
        (DataType::Unsigned8, "-1"),
        (DataType::Unsigned8, "-0"),
        (DataType::Unsigned8, "+"),
        (DataType::Unsigned8, "1_0"),
        (DataType::Unsigned8, "10x5"),
        (DataType::Unsigned8, "0x"),
        (DataType::Unsigned8, "ff"),
        (DataType::Unsigned16, "65536"),
        (DataType::Unsigned16, "$NODEID+0x10000"),
        (DataType::Unsigned16, "$NODEID"),
        (DataType::Unsigned16, "$NODEID+200"),
        (DataType::Unsigned32, "4294967296"),
        (DataType::Unsigned32, "0x100000000"),
        (DataType::Unsigned32, "$NODEID+0x80000180"),
    ];
    for (data_type, text) in cases {
        assert_eq!(
            parse_default_value(3, data_type, text),
            Err(EdsParseError::DefaultValue(data_type)),
            "{:?} from {:?}",
            data_type,
            text
        );
    }
}

#[test]
fn integers_in_text() {
    let number = |text: &str, from, radix, min, max| parse_integer(&chars(text), from, radix, min, max);
    assert_eq!(number("123", 0, 10, 0, 255), Some(123));
    assert_eq!(number("x123", 1, 10, 0, 255), Some(123));
    assert_eq!(number("fF", 0, 16, 0, 255), Some(255));
    assert_eq!(number("256", 0, 10, 0, 255), None);
    assert_eq!(number("-5", 0, 10, -10, 10), Some(-5));
    assert_eq!(number("-5", 0, 10, 0, 10), None);
    assert_eq!(number("-a", 0, 16, -10, 10), Some(-10));
    assert_eq!(number("0000000000000000000000012", 0, 10, 0, 12), Some(12));
    assert_eq!(number("4294967296", 0, 10, 0, 0x1_0000_0000), Some(0x1_0000_0000));
    assert_eq!(number("-4294967296", 0, 10, -0x1_0000_0000, 0), Some(-0x1_0000_0000));
    assert_eq!(number("", 0, 10, 0, 10), None);
    assert_eq!(number("12", 2, 10, 0, 100), None);
    assert_eq!(number("1a", 0, 10, 0, 100), None);
    assert_eq!(number("٣", 0, 10, 0, 100), None);
}

#[test]
fn markers_in_text() {
    assert_eq!(to_chars("a€b"), vec!['a', '€', 'b']);
    assert!(contains(&chars("10x5"), &chars("0x")));
    assert!(contains(&chars("0x"), &chars("0x")));
    assert!(!contains(&chars("x0"), &chars("0x")));
    assert!(!contains(&chars("0"), &chars("0x")));
    assert!(contains(&chars("abc"), &chars("")));
    assert!(starts_with_at(&chars("1000sub1"), 4, &chars("sub")));
    assert!(!starts_with_at(&chars("1000sub1"), 5, &chars("sub")));
    assert!(!starts_with_at(&chars("su"), 0, &chars("sub")));
    assert_eq!(skip_leading(&chars("0x0x0y"), &chars("0x")), 4);
    assert_eq!(skip_leading(&chars("10x"), &chars("0x")), 0);
    assert_eq!(skip_leading(&chars("0x0x"), &chars("0x")), 4);
    assert_eq!(skip_leading(&chars("abc"), &chars("")), 0);
}

#[test]
fn values_of_a_seeded_dictionary() {
    let mut data = parse_eds(&5, SHEET).unwrap();
    assert_eq!(get_dataval(0x6060, 0, &data), Some(DataValue::Integer8(-1)));
    assert_eq!(get_dataval(0x6060, 1, &data), None);
    assert_eq!(get_val(0x6060, 0, &data), Some(-1));
    assert_eq!(get_val(0x1000, 0, &data), Some(0x0002_0192));
    assert_eq!(get_val(0x2001, 0, &data), None);
    assert_eq!(get_val(0x2000, 0x1A, &data), None);
    assert_eq!(get_val(0x5000, 0, &data), None);
    assert!(set_dataval(0x6060, 0, DataValue::Integer8(6), &mut data));
    assert_eq!(get_val(0x6060, 0, &data), Some(6));
    assert!(!set_dataval(0x6060, 0, DataValue::Unsigned8(1), &mut data));
    assert!(!set_dataval(0x5000, 0, DataValue::Unsigned8(1), &mut data));
    assert_eq!(get_val(0x6060, 0, &data), Some(6));
    // The default of a Real32 is decoded by the caller.
    let bits = data.real32_defaults[0].text.parse::<f32>().unwrap().to_bits();
    assert!(set_dataval(0x2000, 0x1A, DataValue::Real32(bits), &mut data));
    assert_eq!(get_dataval(0x2000, 0x1A, &data), Some(DataValue::Real32(0x3FC0_0000)));
}
