//! The data that an electronic data sheet delivers: typed values, the entries
//! that hold them, and the seeded object dictionary.

use vstd::prelude::*;
use vstd::string::StringExecFns;
use crate::od::{Entries, ObjectDictionary};
use crate::sheet::{
    Lines, Section, find_section, ini_sections, load_sections, section_named, sections_view,
    value_of,
};
use crate::text::{
    contains, has_marker, hex_marker, hex_prefix, integer_of, parse_integer, skip_leading,
    to_chars, without_leading,
};

verus! {

/// What the `[FileInfo]` section says about the data sheet itself.
#[derive(Debug)]
pub struct FileInfo {
    pub file_name: String,
    pub file_version: u32,
    pub file_revision: u32,
    /// The data sheet's format version, as written in the file.
    pub eds_version: String,
    pub description: String,
    pub created_by: String,
}

/// What the `[DeviceInfo]` section says about the device.
#[derive(Debug)]
pub struct DeviceInfo {
    pub vendor_name: String,
    pub vendor_number: u32,
    pub product_name: String,
    pub product_number: u32,
}

/// The type tag of an object dictionary entry.
#[derive(Debug, Clone, Copy, PartialEq, Eq, Structural)]
pub enum DataType {
    Unknown,
    Boolean,
    Integer8,
    Integer16,
    Integer32,
    Unsigned8,
    Unsigned16,
    Unsigned32,
    Real32,
}

/// A tagged value of an object dictionary entry.
#[derive(Debug, Clone, Copy, PartialEq, Eq, Structural)]
pub enum DataValue {
    /// Placeholder for a declared type that is not modelled.
    Unknown(i32),
    Boolean(bool),
    Integer8(i8),
    Integer16(i16),
    Integer32(i32),
    Unsigned8(u8),
    Unsigned16(u16),
    Unsigned32(u32),
    /// A 32-bit real, held as its IEEE-754 bit pattern.
    Real32(u32),
}

impl DataValue {
    /// The tag of this value.
    pub open spec fn tag(self) -> DataType {
        match self {
            DataValue::Unknown(_) => DataType::Unknown,
            DataValue::Boolean(_) => DataType::Boolean,
            DataValue::Integer8(_) => DataType::Integer8,
            DataValue::Integer16(_) => DataType::Integer16,
            DataValue::Integer32(_) => DataType::Integer32,
            DataValue::Unsigned8(_) => DataType::Unsigned8,
            DataValue::Unsigned16(_) => DataType::Unsigned16,
            DataValue::Unsigned32(_) => DataType::Unsigned32,
            DataValue::Real32(_) => DataType::Real32,
        }
    }

    /// The tag of this value.
    pub fn data_type(&self) -> (tag: DataType)
        ensures
            tag == self.tag(),
    {
        match self {
            DataValue::Unknown(_) => DataType::Unknown,
            DataValue::Boolean(_) => DataType::Boolean,
            DataValue::Integer8(_) => DataType::Integer8,
            DataValue::Integer16(_) => DataType::Integer16,
            DataValue::Integer32(_) => DataType::Integer32,
            DataValue::Unsigned8(_) => DataType::Unsigned8,
            DataValue::Unsigned16(_) => DataType::Unsigned16,
            DataValue::Unsigned32(_) => DataType::Unsigned32,
            DataValue::Real32(_) => DataType::Real32,
        }
    }
}

/// One entry of the object dictionary.
#[derive(Debug, Clone)]
pub struct Var {
    pub parameter_name: String,
    pub access_type: String,
    pub value: DataValue,
    pub pdo_mapping: bool,
}

/// What an entry holds.
pub struct VarView {
    pub parameter_name: Seq<char>,
    pub access_type: Seq<char>,
    pub value: DataValue,
    pub pdo_mapping: bool,
}

impl VarView {
    /// This entry with `value` in place of its value.
    pub open spec fn with_value(self, value: DataValue) -> VarView {
        VarView { value, ..self }
    }
}

impl Var {
    /// What this entry holds.
    pub open spec fn view(&self) -> VarView {
        VarView {
            parameter_name: self.parameter_name@,
            access_type: self.access_type@,
            value: self.value,
            pdo_mapping: self.pdo_mapping,
        }
    }
}

/// The default of a Real32 entry, as the data sheet writes it.
#[derive(Debug)]
pub struct Real32Default {
    pub index: u16,
    pub sub_index: u8,
    pub text: String,
}

/// Everything a data sheet delivers for one node.
#[derive(Debug)]
pub struct EDSData {
    pub file_info: FileInfo,
    pub device_info: DeviceInfo,
    pub od: ObjectDictionary,
    /// The defaults of the Real32 entries, in the order of the data sheet. The
    /// entries themselves are seeded with the bit pattern 0: to decode these
    /// texts takes floating point, which is left to the caller.
    pub real32_defaults: Vec<Real32Default>,
}

/// The type tag that a data sheet's `DataType` code stands for.
pub open spec fn data_type_of(code: u32) -> DataType {
    match code {
        0x0001 => DataType::Boolean,
        0x0002 => DataType::Integer8,
        0x0003 => DataType::Integer16,
        0x0004 => DataType::Integer32,
        0x0005 => DataType::Unsigned8,
        0x0006 => DataType::Unsigned16,
        0x0007 => DataType::Unsigned32,
        0x0008 => DataType::Real32,
        _ => DataType::Unknown,
    }
}

/// The type tag that the `DataType` code `data_type` stands for.
pub fn get_data_type(data_type: &u32) -> (tag: DataType)
    ensures
        tag == data_type_of(*data_type),
{
    match *data_type {
        0x0001 => DataType::Boolean,
        0x0002 => DataType::Integer8,
        0x0003 => DataType::Integer16,
        0x0004 => DataType::Integer32,
        0x0005 => DataType::Unsigned8,
        0x0006 => DataType::Unsigned16,
        0x0007 => DataType::Unsigned32,
        0x0008 => DataType::Real32,
        _ => DataType::Unknown,
    }
}

} // verus!

verus! {

/// The value of the entry (`index`, `sub_index`) of a node's dictionary.
pub fn get_dataval(index: u16, sub_index: u8, eds_data: &EDSData) -> (value: Option<DataValue>)
    ensures
        value == crate::od::value_at(eds_data.od@, index, sub_index),
{
    eds_data.od.get_value(index, sub_index)
}

/// The number that the entry (`index`, `sub_index`) holds, where it holds an
/// integer.
pub fn get_val(index: u16, sub_index: u8, eds_data: &EDSData) -> (number: Option<i64>)
    ensures
        number == match crate::od::value_at(eds_data.od@, index, sub_index) {
            Some(value) => if value.tag().on_wire() {
                Some(value.number() as i64)
            } else {
                None
            },
            None => None,
        },
{
    match eds_data.od.get_value(index, sub_index) {
        Some(DataValue::Integer8(v)) => Some(v as i64),
        Some(DataValue::Integer16(v)) => Some(v as i64),
        Some(DataValue::Integer32(v)) => Some(v as i64),
        Some(DataValue::Unsigned8(v)) => Some(v as i64),
        Some(DataValue::Unsigned16(v)) => Some(v as i64),
        Some(DataValue::Unsigned32(v)) => Some(v as i64),
        _ => None,
    }
}

/// Offers `value` to the entry (`index`, `sub_index`) of a node's dictionary:
/// written where the entry exists with the same tag, refused otherwise.
/// Returns whether it was written.
pub fn set_dataval(index: u16, sub_index: u8, value: DataValue, eds_data: &mut EDSData) -> (written:
    bool)
    ensures
        written == crate::od::accepts(old(eds_data).od@, index, sub_index, value),
        final(eds_data).od@ == crate::od::after_write(old(eds_data).od@, index, sub_index, value),
        crate::od::same_layout(old(eds_data).od@, final(eds_data).od@),
        final(eds_data).file_info == old(eds_data).file_info,
        final(eds_data).device_info == old(eds_data).device_info,
        final(eds_data).real32_defaults == old(eds_data).real32_defaults,
{
    eds_data.od.mutate(index, sub_index, value)
}

} // verus!

verus! {

/// Why a data sheet was not taken.
#[derive(Debug, Clone, Copy, PartialEq, Eq, Structural)]
pub enum EdsParseError {
    /// The text is not in INI syntax.
    Syntax,
    /// There is no `[FileInfo]` section.
    MissingFileInfo,
    /// There is no `[DeviceInfo]` section.
    MissingDeviceInfo,
    /// The `ObjectType` of a section is no hexadecimal number of 8 bits.
    ObjectType,
    /// The `DataType` of a section is no hexadecimal number of 32 bits.
    DataType,
    /// The `DefaultValue` of an object does not write a value of its type.
    DefaultValue(DataType),
}

/// The object type of a variable.
pub const OBJECT_VAR: u8 = 0x7;

/// The marker of a default that depends on the node id.
pub open spec fn node_id_marker() -> Seq<char> {
    seq!['$', 'N', 'O', 'D', 'E', 'I', 'D']
}

/// What stands before the number in a default that depends on the node id.
pub open spec fn node_id_prefix() -> Seq<char> {
    seq!['$', 'N', 'O', 'D', 'E', 'I', 'D', '+', '0', 'x']
}

/// The number between `min` and `max` that `text` writes: in radix 16 behind
/// any leading `0x` where the text holds `0x`, in radix 10 otherwise.
pub open spec fn number_of(text: Seq<char>, min: int, max: int) -> Option<int> {
    if has_marker(text, hex_marker()) {
        integer_of(without_leading(text, hex_marker()), 16, min, max)
    } else {
        integer_of(text, 10, min, max)
    }
}

/// The hexadecimal number up to `max` that `text` writes behind any leading
/// `0x`.
pub open spec fn hex_of(text: Seq<char>, max: int) -> Option<int> {
    integer_of(without_leading(text, hex_marker()), 16, 0, max)
}

/// The identifier that a default of the form `$NODEID+0x...` makes for the node
/// `node_id`: the 16-bit number behind the prefix with the bits of the id set.
pub open spec fn node_cob_of(node_id: u8, text: Seq<char>) -> Option<u16> {
    match integer_of(without_leading(text, node_id_prefix()), 16, 0, 0xFFFF) {
        Some(cob) => Some((cob as u16) | (node_id as u16)),
        None => None,
    }
}

/// The value of type `data_type` that the default `text` seeds an entry of the
/// node `node_id` with. An empty text stands for `0`. A type that is not
/// modelled gets the placeholder 0, and a Real32 the bit pattern 0.
pub open spec fn default_value_of(node_id: u8, data_type: DataType, text: Seq<char>) -> Result<
    DataValue,
    EdsParseError,
> {
    let text = if text.len() == 0 {
        seq!['0']
    } else {
        text
    };
    let invalid = Err::<DataValue, EdsParseError>(EdsParseError::DefaultValue(data_type));
    match data_type {
        DataType::Unknown => Ok(DataValue::Unknown(0)),
        DataType::Boolean => if text == seq!['t', 'r', 'u', 'e'] {
            Ok(DataValue::Boolean(true))
        } else if text == seq!['f', 'a', 'l', 's', 'e'] {
            Ok(DataValue::Boolean(false))
        } else {
            invalid
        },
        DataType::Integer8 => match number_of(text, i8::MIN as int, i8::MAX as int) {
            Some(n) => Ok(DataValue::Integer8(n as i8)),
            None => invalid,
        },
        DataType::Integer16 => match number_of(text, i16::MIN as int, i16::MAX as int) {
            Some(n) => Ok(DataValue::Integer16(n as i16)),
            None => invalid,
        },
        DataType::Integer32 => match number_of(text, i32::MIN as int, i32::MAX as int) {
            Some(n) => Ok(DataValue::Integer32(n as i32)),
            None => invalid,
        },
        DataType::Unsigned8 => match number_of(text, 0, u8::MAX as int) {
            Some(n) => Ok(DataValue::Unsigned8(n as u8)),
            None => invalid,
        },
        DataType::Unsigned16 => if has_marker(text, node_id_marker()) {
            match node_cob_of(node_id, text) {
                Some(cob) => Ok(DataValue::Unsigned16(cob)),
                None => invalid,
            }
        } else {
            match number_of(text, 0, u16::MAX as int) {
                Some(n) => Ok(DataValue::Unsigned16(n as u16)),
                None => invalid,
            }
        },
        DataType::Unsigned32 => if has_marker(text, node_id_marker()) {
            match node_cob_of(node_id, text) {
                Some(cob) => Ok(DataValue::Unsigned32(cob as u32)),
                None => invalid,
            }
        } else {
            match number_of(text, 0, u32::MAX as int) {
                Some(n) => Ok(DataValue::Unsigned32(n as u32)),
                None => invalid,
            }
        },
        DataType::Real32 => Ok(DataValue::Real32(0)),
    }
}

/// The number between `min` and `max` that `text` writes.
fn parse_number(text: &Vec<char>, min: i64, max: i64) -> (number: Option<i64>)
    requires
        -0x1_0000_0000 <= min <= 0 <= max <= 0x1_0000_0000,
    ensures
        match number {
            Some(n) => number_of(text@, min as int, max as int) == Some(n as int),
            None => number_of(text@, min as int, max as int) is None,
        },
{
    let marker = hex_prefix();
    if contains(text, &marker) {
        let from = skip_leading(text, &marker);
        parse_integer(text, from, 16, min, max)
    } else {
        assert(text@.skip(0) =~= text@);
        parse_integer(text, 0, 10, min, max)
    }
}

/// The identifier that a default of the form `$NODEID+0x...` makes for the node
/// `node_id`.
fn parse_node_cob(node_id: u8, text: &Vec<char>) -> (cob: Option<u16>)
    ensures
        cob == node_cob_of(node_id, text@),
{
    let prefix: Vec<char> = vec!['$', 'N', 'O', 'D', 'E', 'I', 'D', '+', '0', 'x'];
    let from = skip_leading(text, &prefix);
    match parse_integer(text, from, 16, 0, 0xFFFF) {
        Some(cob) => Some((cob as u16) | (node_id as u16)),
        None => None,
    }
}

/// Whether `text` is just the characters of `word`.
fn is_word(text: &Vec<char>, word: &Vec<char>) -> (same: bool)
    ensures
        same == (text@ == word@),
{
    if text.len() != word.len() {
        return false;
    }
    let mut i: usize = 0;
    while i < text.len()
        invariant
            i <= text@.len(),
            text@.len() == word@.len(),
            text@.take(i as int) == word@.take(i as int),
        decreases text@.len() - i,
    {
        if text[i] != word[i] {
            return false;
        }
        i = i + 1;
    }
    assert(text@.take(i as int) =~= text@);
    assert(word@.take(i as int) =~= word@);
    true
}

/// The value of type `data_type` that the default `default_value` seeds an
/// entry of the node `node_id` with.
pub fn parse_default_value(node_id: u8, data_type: DataType, default_value: &str) -> (value: Result<
    DataValue,
    EdsParseError,
>)
    ensures
        value == default_value_of(node_id, data_type, default_value@),
{
    let given = to_chars(default_value);
    let text: Vec<char> = if given.len() == 0 {
        vec!['0']
    } else {
        given
    };
    assert(text@ =~= if default_value@.len() == 0 {
        seq!['0']
    } else {
        default_value@
    });
    let invalid = Err(EdsParseError::DefaultValue(data_type));
    match data_type {
        DataType::Unknown => Ok(DataValue::Unknown(0)),
        DataType::Boolean => {
            let yes: Vec<char> = vec!['t', 'r', 'u', 'e'];
            let no: Vec<char> = vec!['f', 'a', 'l', 's', 'e'];
            if is_word(&text, &yes) {
                Ok(DataValue::Boolean(true))
            } else if is_word(&text, &no) {
                Ok(DataValue::Boolean(false))
            } else {
                invalid
            }
        },
        DataType::Integer8 => match parse_number(&text, -0x80, 0x7F) {
            Some(n) => Ok(DataValue::Integer8(n as i8)),
            None => invalid,
        },
        DataType::Integer16 => match parse_number(&text, -0x8000, 0x7FFF) {
            Some(n) => Ok(DataValue::Integer16(n as i16)),
            None => invalid,
        },
        DataType::Integer32 => match parse_number(&text, -0x8000_0000, 0x7FFF_FFFF) {
            Some(n) => Ok(DataValue::Integer32(n as i32)),
            None => invalid,
        },
        DataType::Unsigned8 => match parse_number(&text, 0, 0xFF) {
            Some(n) => Ok(DataValue::Unsigned8(n as u8)),
            None => invalid,
        },
        DataType::Unsigned16 => {
            let marker: Vec<char> = vec!['$', 'N', 'O', 'D', 'E', 'I', 'D'];
            if contains(&text, &marker) {
                match parse_node_cob(node_id, &text) {
                    Some(cob) => Ok(DataValue::Unsigned16(cob)),
                    None => invalid,
                }
            } else {
                match parse_number(&text, 0, 0xFFFF) {
                    Some(n) => Ok(DataValue::Unsigned16(n as u16)),
                    None => invalid,
                }
            }
        },
        DataType::Unsigned32 => {
            let marker: Vec<char> = vec!['$', 'N', 'O', 'D', 'E', 'I', 'D'];
            if contains(&text, &marker) {
                match parse_node_cob(node_id, &text) {
                    Some(cob) => Ok(DataValue::Unsigned32(cob as u32)),
                    None => invalid,
                }
            } else {
                match parse_number(&text, 0, 0xFFFF_FFFF) {
                    Some(n) => Ok(DataValue::Unsigned32(n as u32)),
                    None => invalid,
                }
            }
        },
        DataType::Real32 => Ok(DataValue::Real32(0)),
    }
}

/// The entry that a section name addresses: four hexadecimal digits of index,
/// then `sub` and the sub-index in hexadecimal. A name without a sub-index
/// addresses sub-index 0, and a name without an index the entry (0, 0).
pub open spec fn section_address(name: Seq<char>) -> (u16, u8) {
    if name.len() < 4 {
        (0, 0)
    } else {
        match integer_of(name.take(4), 16, 0, 0xFFFF) {
            Some(index) => {
                let suffix = name.skip(4);
                if crate::text::has_prefix(suffix, seq!['s', 'u', 'b']) {
                    match integer_of(suffix.skip(3), 16, 0, 0xFF) {
                        Some(sub_index) => (index as u16, sub_index as u8),
                        None => (index as u16, 0),
                    }
                } else {
                    (index as u16, 0)
                }
            },
            None => (0, 0),
        }
    }
}

/// The entry that the section name `section` addresses.
pub fn parse_section(section: &str) -> (address: (u16, u8))
    ensures
        address == section_address(section@),
{
    let name = to_chars(section);
    if name.len() < 4 {
        return (0, 0);
    }
    let mut prefix: Vec<char> = Vec::new();
    prefix.push(name[0]);
    prefix.push(name[1]);
    prefix.push(name[2]);
    prefix.push(name[3]);
    assert(prefix@ =~= name@.take(4));
    assert(prefix@.skip(0) =~= prefix@);
    match parse_integer(&prefix, 0, 16, 0, 0xFFFF) {
        Some(index) => {
            let marker: Vec<char> = vec!['s', 'u', 'b'];
            if crate::text::starts_with_at(&name, 4, &marker) {
                assert(name@.skip(4).skip(3) =~= name@.skip(7));
                match parse_integer(&name, 7, 16, 0, 0xFF) {
                    Some(sub_index) => (index as u16, sub_index as u8),
                    None => (index as u16, 0),
                }
            } else {
                (index as u16, 0)
            }
        },
        None => (0, 0),
    }
}

/// Whether a data sheet says yes: `1` does, everything else does not.
pub fn parse_str_to_bool(hex_str: &str) -> (flag: bool)
    ensures
        flag == (hex_str@ == seq!['1']),
{
    let text = to_chars(hex_str);
    let one: Vec<char> = vec!['1'];
    assert(one@ =~= seq!['1']);
    is_word(&text, &one)
}

/// The 8-bit number that `hex_str` writes in hexadecimal, behind any leading
/// `0x`.
pub fn parse_str_to_u8(hex_str: &str) -> (number: Option<u8>)
    ensures
        match number {
            Some(n) => hex_of(hex_str@, 0xFF) == Some(n as int),
            None => hex_of(hex_str@, 0xFF) is None,
        },
{
    let text = to_chars(hex_str);
    let marker = hex_prefix();
    let from = skip_leading(&text, &marker);
    match parse_integer(&text, from, 16, 0, 0xFF) {
        Some(n) => Some(n as u8),
        None => None,
    }
}

/// The 32-bit number that `hex_str` writes in hexadecimal, behind any leading
/// `0x`.
pub fn parse_str_to_u32(hex_str: &str) -> (number: Option<u32>)
    ensures
        match number {
            Some(n) => hex_of(hex_str@, 0xFFFF_FFFF) == Some(n as int),
            None => hex_of(hex_str@, 0xFFFF_FFFF) is None,
        },
{
    let text = to_chars(hex_str);
    let marker = hex_prefix();
    let from = skip_leading(&text, &marker);
    match parse_integer(&text, from, 16, 0, 0xFFFF_FFFF) {
        Some(n) => Some(n as u32),
        None => None,
    }
}

/// The 32-bit number that `text` writes in decimal; 0 where it writes none.
pub open spec fn decimal_or_zero(text: Option<Seq<char>>) -> u32 {
    match text {
        Some(t) => match integer_of(t, 10, 0, 0xFFFF_FFFF) {
            Some(n) => n as u32,
            None => 0,
        },
        None => 0,
    }
}

/// `text`, or nothing where there is none.
pub open spec fn text_or_empty(text: Option<Seq<char>>) -> Seq<char> {
    match text {
        Some(t) => t,
        None => Seq::empty(),
    }
}

/// `text`, or `0` where there is none.
pub open spec fn text_or_zero(text: Option<Seq<char>>) -> Seq<char> {
    match text {
        Some(t) => t,
        None => seq!['0'],
    }
}

/// What a section says of an object of the node `node_id`: nothing where its
/// object type is not that of a variable, the object's address and entry
/// otherwise. Object type and data type have to be hexadecimal numbers in
/// every section, and the default of a variable has to write a value of its
/// type.
pub open spec fn object_of(node_id: u8, name: Seq<char>, lines: Lines) -> Result<
    Option<((u16, u8), VarView)>,
    EdsParseError,
> {
    match hex_of(text_or_zero(value_of(lines, "ObjectType"@)), 0xFF) {
        None => Err(EdsParseError::ObjectType),
        Some(object_type) => match hex_of(
            text_or_zero(value_of(lines, "DataType"@)),
            0xFFFF_FFFF,
        ) {
            None => Err(EdsParseError::DataType),
            Some(code) => if object_type != OBJECT_VAR {
                Ok(None)
            } else {
                match default_value_of(
                    node_id,
                    data_type_of(code as u32),
                    text_or_empty(value_of(lines, "DefaultValue"@)),
                ) {
                    Err(e) => Err(e),
                    Ok(value) => Ok(
                        Some(
                            (
                                section_address(name),
                                VarView {
                                    parameter_name: text_or_empty(
                                        value_of(lines, "ParameterName"@),
                                    ),
                                    access_type: text_or_empty(value_of(lines, "AccessType"@)),
                                    value,
                                    pdo_mapping: text_or_empty(value_of(lines, "PDOMapping"@))
                                        == seq!['1'],
                                },
                            ),
                        ),
                    ),
                }
            },
        },
    }
}

/// The dictionary that `sections` seed for the node `node_id`, and the defaults
/// of its Real32 entries: the objects of the named sections, entered in order,
/// a later one in place of an earlier one at the same address.
pub open spec fn seeded(node_id: u8, sections: Seq<(Option<Seq<char>>, Lines)>) -> Result<
    (Entries, Seq<(u16, u8, Seq<char>)>),
    EdsParseError,
>
    decreases sections.len(),
{
    if sections.len() == 0 {
        Ok((Map::empty(), Seq::empty()))
    } else {
        match seeded(node_id, sections.drop_last()) {
            Err(e) => Err(e),
            Ok((entries, reals)) => match sections.last().0 {
                None => Ok((entries, reals)),
                Some(name) => match object_of(node_id, name, sections.last().1) {
                    Err(e) => Err(e),
                    Ok(None) => Ok((entries, reals)),
                    Ok(Some((address, var))) => Ok(
                        (
                            entries.insert(address, var),
                            if var.value.tag() == DataType::Real32 {
                                reals.push(
                                    (
                                        address.0,
                                        address.1,
                                        text_or_empty(value_of(sections.last().1, "DefaultValue"@)),
                                    ),
                                )
                            } else {
                                reals
                            },
                        ),
                    ),
                },
            },
        }
    }
}

/// What the Real32 defaults of a data sheet hold.
pub open spec fn reals_view(reals: Seq<Real32Default>) -> Seq<(u16, u8, Seq<char>)> {
    Seq::new(reals.len(), |i: int| (reals[i].index, reals[i].sub_index, reals[i].text@))
}

impl FileInfo {
    /// Whether this is what the lines of a `[FileInfo]` section say.
    pub open spec fn is_from(&self, lines: Lines) -> bool {
        &&& self.file_name@ == text_or_empty(value_of(lines, "FileName"@))
        &&& self.file_version == decimal_or_zero(value_of(lines, "FileVersion"@))
        &&& self.file_revision == decimal_or_zero(value_of(lines, "FileRevision"@))
        &&& self.eds_version@ == text_or_empty(value_of(lines, "EDSVersion"@))
        &&& self.description@ == text_or_empty(value_of(lines, "Description"@))
        &&& self.created_by@ == text_or_empty(value_of(lines, "CreatedBy"@))
    }
}

impl DeviceInfo {
    /// Whether this is what the lines of a `[DeviceInfo]` section say.
    pub open spec fn is_from(&self, lines: Lines) -> bool {
        &&& self.vendor_name@ == text_or_empty(value_of(lines, "VendorName"@))
        &&& self.vendor_number == decimal_or_zero(value_of(lines, "VendorNumber"@))
        &&& self.product_name@ == text_or_empty(value_of(lines, "ProductName"@))
        &&& self.product_number == decimal_or_zero(value_of(lines, "ProductNumber"@))
    }
}

/// Whether `result` is what `sections` deliver for the node `node_id`: the file
/// and device information of the first sections of these names, and the
/// dictionary that the sections seed; or the first thing that is wrong with
/// them.
pub open spec fn delivers(
    node_id: u8,
    sections: Seq<(Option<Seq<char>>, Lines)>,
    result: Result<EDSData, EdsParseError>,
) -> bool {
    match section_named(sections, "FileInfo"@) {
        None => result matches Err(e) && e == EdsParseError::MissingFileInfo,
        Some(file) => match section_named(sections, "DeviceInfo"@) {
            None => result matches Err(e) && e == EdsParseError::MissingDeviceInfo,
            Some(device) => match seeded(node_id, sections) {
                Err(wrong) => result matches Err(e) && e == wrong,
                Ok((entries, reals)) => {
                    &&& result matches Ok(data)
                    &&& data.file_info.is_from(file.1)
                    &&& data.device_info.is_from(device.1)
                    &&& data.od@ == entries
                    &&& reals_view(data.real32_defaults@) == reals
                },
            },
        },
    }
}

/// The text of the line `key` of `section`; empty where there is none.
fn text_of(section: &Section, key: &str) -> (text: String)
    ensures
        text@ == text_or_empty(value_of(section@.1, key@)),
{
    let key = String::from_str(key);
    match section.get(&key) {
        Some(value) => value.clone(),
        None => String::new(),
    }
}

/// The decimal number of the line `key` of `section`; 0 where there is none.
fn decimal_of(section: &Section, key: &str) -> (number: u32)
    ensures
        number == decimal_or_zero(value_of(section@.1, key@)),
{
    let key = String::from_str(key);
    match section.get(&key) {
        Some(value) => {
            let text = to_chars(value.as_str());
            assert(text@.skip(0) =~= text@);
            match parse_integer(&text, 0, 10, 0, 0xFFFF_FFFF) {
                Some(n) => n as u32,
                None => 0,
            }
        },
        None => 0,
    }
}

/// The hexadecimal number up to `max` of the line `key` of `section`, `0`
/// where there is no such line.
fn hex_of_line(section: &Section, key: &str, max: i64) -> (number: Option<i64>)
    requires
        0 <= max <= 0xFFFF_FFFF,
    ensures
        match number {
            Some(n) => hex_of(text_or_zero(value_of(section@.1, key@)), max as int) == Some(
                n as int,
            ),
            None => hex_of(text_or_zero(value_of(section@.1, key@)), max as int) is None,
        },
{
    let key = String::from_str(key);
    let text: Vec<char> = match section.get(&key) {
        Some(value) => to_chars(value.as_str()),
        None => vec!['0'],
    };
    assert(text@ =~= text_or_zero(value_of(section@.1, key@)));
    let marker = hex_prefix();
    let from = skip_leading(&text, &marker);
    parse_integer(&text, from, 16, 0, max)
}

/// What `section`, of the name `name`, says of an object of the node `node_id`.
fn parse_object(node_id: u8, name: &String, section: &Section) -> (object: Result<
    Option<(u16, u8, Var)>,
    EdsParseError,
>)
    ensures
        match object_of(node_id, name@, section@.1) {
            Err(e) => object matches Err(wrong) && wrong == e,
            Ok(None) => object matches Ok(None),
            Ok(Some((address, var))) => object matches Ok(Some(found)) && (found.0, found.1)
                == address && found.2@ == var,
        },
{
    let object_type = match hex_of_line(section, "ObjectType", 0xFF) {
        Some(n) => n as u8,
        None => {
            return Err(EdsParseError::ObjectType);
        },
    };
    let data_type = match hex_of_line(section, "DataType", 0xFFFF_FFFF) {
        Some(n) => get_data_type(&(n as u32)),
        None => {
            return Err(EdsParseError::DataType);
        },
    };
    if object_type != OBJECT_VAR {
        return Ok(None);
    }
    let default_value = text_of(section, "DefaultValue");
    let value = match parse_default_value(node_id, data_type, default_value.as_str()) {
        Ok(value) => value,
        Err(e) => {
            return Err(e);
        },
    };
    let (index, sub_index) = parse_section(name.as_str());
    let mapping = text_of(section, "PDOMapping");
    let var = Var {
        parameter_name: text_of(section, "ParameterName"),
        access_type: text_of(section, "AccessType"),
        value,
        pdo_mapping: parse_str_to_bool(mapping.as_str()),
    };
    Ok(Some((index, sub_index, var)))
}

/// What the sections of a data sheet deliver for the node `node_id`.
pub fn seed_eds(node_id: u8, sections: &Vec<Section>) -> (result: Result<EDSData, EdsParseError>)
    ensures
        delivers(node_id, sections_view(sections@), result),
{
    let ghost all = sections_view(sections@);
    let file_key = String::from_str("FileInfo");
    let file_info_section = match find_section(sections, &file_key) {
        Some(section) => section,
        None => {
            return Err(EdsParseError::MissingFileInfo);
        },
    };
    let file_info = FileInfo {
        file_name: text_of(file_info_section, "FileName"),
        file_version: decimal_of(file_info_section, "FileVersion"),
        file_revision: decimal_of(file_info_section, "FileRevision"),
        eds_version: text_of(file_info_section, "EDSVersion"),
        description: text_of(file_info_section, "Description"),
        created_by: text_of(file_info_section, "CreatedBy"),
    };
    let device_key = String::from_str("DeviceInfo");
    let device_info_section = match find_section(sections, &device_key) {
        Some(section) => section,
        None => {
            return Err(EdsParseError::MissingDeviceInfo);
        },
    };
    let device_info = DeviceInfo {
        vendor_name: text_of(device_info_section, "VendorName"),
        vendor_number: decimal_of(device_info_section, "VendorNumber"),
        product_name: text_of(device_info_section, "ProductName"),
        product_number: decimal_of(device_info_section, "ProductNumber"),
    };
    let mut od = ObjectDictionary::new();
    let mut real32_defaults: Vec<Real32Default> = Vec::new();
    let mut i: usize = 0;
    assert(reals_view(real32_defaults@) =~= Seq::empty());
    while i < sections.len()
        invariant
            i <= sections@.len(),
            all == sections_view(sections@),
            seeded(node_id, all.take(i as int)) == Ok::<
                (Entries, Seq<(u16, u8, Seq<char>)>),
                EdsParseError,
            >((od@, reals_view(real32_defaults@))),
            file_info.is_from(file_info_section@.1),
            device_info.is_from(device_info_section@.1),
            section_named(all, "FileInfo"@) == Some(file_info_section@),
            section_named(all, "DeviceInfo"@) == Some(device_info_section@),
        decreases sections@.len() - i,
    {
        let ghost done = all.take(i as int);
        let ghost next = all.take(i + 1);
        assert(next.drop_last() =~= done);
        let section = &sections[i];
        i = i + 1;
        let name = match &section.name {
            Some(name) => name,
            None => {
                continue ;
            },
        };
        match parse_object(node_id, name, section) {
            Err(e) => {
                proof {
                    lemma_seeded_fails(node_id, all, i as int);
                }
                return Err(e);
            },
            Ok(None) => {},
            Ok(Some((index, sub_index, var))) => {
                let ghost before = reals_view(real32_defaults@);
                if var.value.data_type() == DataType::Real32 {
                    real32_defaults.push(
                        Real32Default { index, sub_index, text: text_of(section, "DefaultValue") },
                    );
                    assert(reals_view(real32_defaults@) =~= before.push(
                        (index, sub_index, text_or_empty(value_of(section@.1, "DefaultValue"@))),
                    ));
                }
                od.insert(index, sub_index, var);
            },
        }
    }
    assert(all.take(i as int) =~= all);
    Ok(EDSData { file_info, device_info, od, real32_defaults })
}

/// Once a beginning of the sections is wrong, the whole is wrong in the same
/// way.
pub proof fn lemma_seeded_fails(node_id: u8, sections: Seq<(Option<Seq<char>>, Lines)>, n: int)
    requires
        0 <= n <= sections.len(),
        seeded(node_id, sections.take(n)) is Err,
    ensures
        seeded(node_id, sections) == seeded(node_id, sections.take(n)),
    decreases sections.len() - n,
{
    if n == sections.len() {
        assert(sections.take(n) =~= sections);
    } else {
        assert(sections.take(n + 1).drop_last() =~= sections.take(n));
        lemma_seeded_fails(node_id, sections, n + 1);
    }
}

/// Reads the data sheet `eds_content` for the node `node_id`.
pub fn parse_eds(node_id: &u8, eds_content: &str) -> (result: Result<EDSData, EdsParseError>)
    ensures
        match ini_sections(eds_content@) {
            None => result matches Err(e) && e == EdsParseError::Syntax,
            Some(sections) => delivers(*node_id, sections, result),
        },
{
    match load_sections(eds_content) {
        Some(sections) => seed_eds(*node_id, &sections),
        None => Err(EdsParseError::Syntax),
    }
}

} // verus!
