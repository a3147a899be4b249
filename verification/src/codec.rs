//! The wire form of object dictionary values: little-endian integers of one,
//! two or four bytes, signed ones in two's complement.

use vstd::prelude::*;
use crate::eds::{DataType, DataValue};

verus! {

/// The number that `bytes` holds, least significant byte first.
pub open spec fn le_unsigned(bytes: Seq<u8>) -> int
    decreases bytes.len(),
{
    if bytes.len() == 0 {
        0
    } else {
        bytes[0] as int + 256 * le_unsigned(bytes.drop_first())
    }
}

/// The `width` bytes that hold `value`, least significant byte first.
pub open spec fn le_bytes(value: int, width: nat) -> Seq<u8>
    decreases width,
{
    if width == 0 {
        Seq::empty()
    } else {
        seq![(value % 256) as u8] + le_bytes(value / 256, (width - 1) as nat)
    }
}

/// 256 to the power `width`, for the widths in use.
pub open spec fn radix(width: nat) -> int {
    if width == 1 {
        0x100
    } else if width == 2 {
        0x1_0000
    } else if width == 4 {
        0x1_0000_0000
    } else {
        1
    }
}

/// The signed number that the unsigned `value` of `width` bytes stands for in
/// two's complement.
pub open spec fn to_signed(value: int, width: nat) -> int {
    if 2 * value >= radix(width) {
        value - radix(width)
    } else {
        value
    }
}

/// The unsigned number of `width` bytes that stands for the signed `value` in
/// two's complement.
pub open spec fn to_unsigned(value: int, width: nat) -> int {
    if value < 0 {
        value + radix(width)
    } else {
        value
    }
}

impl DataType {
    /// The number of bytes that a value of this type takes on the wire; 0 for a
    /// type that has no wire form.
    pub open spec fn width(self) -> nat {
        match self {
            DataType::Integer8 | DataType::Unsigned8 => 1,
            DataType::Integer16 | DataType::Unsigned16 => 2,
            DataType::Integer32 | DataType::Unsigned32 => 4,
            _ => 0,
        }
    }

    /// Whether values of this type have a wire form.
    pub open spec fn on_wire(self) -> bool {
        self.width() != 0
    }

    /// The number of bytes that a value of this type takes on the wire; 0 for a
    /// type that has no wire form.
    pub fn wire_width(&self) -> (width: usize)
        ensures
            width == self.width(),
    {
        match self {
            DataType::Integer8 | DataType::Unsigned8 => 1,
            DataType::Integer16 | DataType::Unsigned16 => 2,
            DataType::Integer32 | DataType::Unsigned32 => 4,
            _ => 0,
        }
    }
}

impl DataValue {
    /// The number that an integer value holds; 0 for the other values.
    pub open spec fn number(self) -> int {
        match self {
            DataValue::Integer8(v) => v as int,
            DataValue::Integer16(v) => v as int,
            DataValue::Integer32(v) => v as int,
            DataValue::Unsigned8(v) => v as int,
            DataValue::Unsigned16(v) => v as int,
            DataValue::Unsigned32(v) => v as int,
            _ => 0,
        }
    }

    /// The bytes of this value on the wire; none for a value without wire form.
    pub open spec fn to_wire(self) -> Seq<u8> {
        match self {
            DataValue::Integer8(v) => le_bytes(to_unsigned(v as int, 1), 1),
            DataValue::Integer16(v) => le_bytes(to_unsigned(v as int, 2), 2),
            DataValue::Integer32(v) => le_bytes(to_unsigned(v as int, 4), 4),
            DataValue::Unsigned8(v) => le_bytes(v as int, 1),
            DataValue::Unsigned16(v) => le_bytes(v as int, 2),
            DataValue::Unsigned32(v) => le_bytes(v as int, 4),
            _ => Seq::empty(),
        }
    }

    /// The value of type `tag` that the first bytes of `bytes` hold. `None` where
    /// the type has no wire form or `bytes` is shorter than its width.
    pub open spec fn from_wire(tag: DataType, bytes: Seq<u8>) -> Option<DataValue> {
        let width = tag.width();
        let raw = le_unsigned(bytes.take(width as int));
        if width == 0 || bytes.len() < width {
            None
        } else {
            Some(
                match tag {
                    DataType::Integer8 => DataValue::Integer8(to_signed(raw, 1) as i8),
                    DataType::Integer16 => DataValue::Integer16(to_signed(raw, 2) as i16),
                    DataType::Integer32 => DataValue::Integer32(to_signed(raw, 4) as i32),
                    DataType::Unsigned8 => DataValue::Unsigned8(raw as u8),
                    DataType::Unsigned16 => DataValue::Unsigned16(raw as u16),
                    _ => DataValue::Unsigned32(raw as u32),
                },
            )
        }
    }

    /// The bytes of this value on the wire; none for a value without wire form.
    pub fn wire_bytes(&self) -> (bytes: Vec<u8>)
        ensures
            bytes@ == self.to_wire(),
            bytes@.len() == self.tag().width(),
    {
        let mut bytes: Vec<u8> = Vec::new();
        match *self {
            DataValue::Integer8(v) => {
                let raw: u8 = if v < 0 {
                    (v as i16 + 0x100) as u8
                } else {
                    v as u8
                };
                proof {
                    lemma_le_bytes_1(raw as int);
                }
                bytes.push(raw);
            },
            DataValue::Unsigned8(v) => {
                proof {
                    lemma_le_bytes_1(v as int);
                }
                bytes.push(v);
            },
            DataValue::Integer16(v) => {
                let raw: u16 = if v < 0 {
                    (v as i32 + 0x1_0000) as u16
                } else {
                    v as u16
                };
                proof {
                    lemma_le_bytes_2(raw as int);
                }
                bytes.push((raw % 256) as u8);
                bytes.push((raw / 256) as u8);
            },
            DataValue::Unsigned16(v) => {
                proof {
                    lemma_le_bytes_2(v as int);
                }
                bytes.push((v % 256) as u8);
                bytes.push((v / 256) as u8);
            },
            DataValue::Integer32(v) => {
                let raw: u32 = if v < 0 {
                    (v as i64 + 0x1_0000_0000) as u32
                } else {
                    v as u32
                };
                proof {
                    lemma_le_bytes_4(raw as int);
                }
                bytes.push((raw % 256) as u8);
                bytes.push((raw / 256 % 256) as u8);
                bytes.push((raw / 0x1_0000 % 256) as u8);
                bytes.push((raw / 0x100_0000) as u8);
            },
            DataValue::Unsigned32(v) => {
                proof {
                    lemma_le_bytes_4(v as int);
                }
                bytes.push((v % 256) as u8);
                bytes.push((v / 256 % 256) as u8);
                bytes.push((v / 0x1_0000 % 256) as u8);
                bytes.push((v / 0x100_0000) as u8);
            },
            _ => {},
        }
        bytes
    }

    /// The value of type `tag` that `data` holds from position `at` on. `None`
    /// where the type has no wire form or fewer bytes than its width are left.
    pub fn read_wire(tag: DataType, data: &[u8], at: usize) -> (value: Option<DataValue>)
        requires
            at <= data@.len(),
        ensures
            value == DataValue::from_wire(tag, data@.skip(at as int)),
            value matches Some(v) ==> v.tag() == tag,
    {
        let width = tag.wire_width();
        if width == 0 || data.len() - at < width {
            return None;
        }
        let ghost rest = data@.skip(at as int);
        let b0: u8 = data[at];
        if width == 1 {
            proof {
                lemma_le_unsigned_1(rest.take(1));
            }
            return Some(
                match tag {
                    DataType::Integer8 => DataValue::Integer8(
                        if b0 >= 0x80 {
                            (b0 as i16 - 0x100) as i8
                        } else {
                            b0 as i8
                        },
                    ),
                    _ => DataValue::Unsigned8(b0),
                },
            );
        }
        let b1: u8 = data[at + 1];
        if width == 2 {
            proof {
                lemma_le_unsigned_2(rest.take(2));
            }
            let raw: u16 = b0 as u16 + b1 as u16 * 256;
            return Some(
                match tag {
                    DataType::Integer16 => DataValue::Integer16(
                        if raw >= 0x8000 {
                            (raw as i32 - 0x1_0000) as i16
                        } else {
                            raw as i16
                        },
                    ),
                    _ => DataValue::Unsigned16(raw),
                },
            );
        }
        let b2: u8 = data[at + 2];
        let b3: u8 = data[at + 3];
        proof {
            lemma_le_unsigned_4(rest.take(4));
        }
        let raw: u32 = b0 as u32 + b1 as u32 * 256 + b2 as u32 * 0x1_0000 + b3 as u32 * 0x100_0000;
        Some(
            match tag {
                DataType::Integer32 => DataValue::Integer32(
                    if raw >= 0x8000_0000 {
                        (raw as i64 - 0x1_0000_0000) as i32
                    } else {
                        raw as i32
                    },
                ),
                _ => DataValue::Unsigned32(raw),
            },
        )
    }
}

/// One byte holds its own value.
pub proof fn lemma_le_unsigned_1(bytes: Seq<u8>)
    requires
        bytes.len() == 1,
    ensures
        le_unsigned(bytes) == bytes[0],
{
    reveal_with_fuel(le_unsigned, 2);
}

/// Two bytes hold the first plus 256 times the second.
pub proof fn lemma_le_unsigned_2(bytes: Seq<u8>)
    requires
        bytes.len() == 2,
    ensures
        le_unsigned(bytes) == bytes[0] + 256 * bytes[1],
{
    reveal_with_fuel(le_unsigned, 3);
    assert(bytes.drop_first()[0] == bytes[1]);
}

/// Four bytes hold the sum of each times its power of 256.
pub proof fn lemma_le_unsigned_4(bytes: Seq<u8>)
    requires
        bytes.len() == 4,
    ensures
        le_unsigned(bytes) == bytes[0] + 0x100 * bytes[1] + 0x1_0000 * bytes[2] + 0x100_0000
            * bytes[3],
{
    let b = bytes.drop_first();
    let c = b.drop_first();
    lemma_le_unsigned_2(c);
    assert(le_unsigned(b) == b[0] + 256 * le_unsigned(c));
}

/// The one byte of a number below 256.
pub proof fn lemma_le_bytes_1(value: int)
    requires
        0 <= value < 0x100,
    ensures
        le_bytes(value, 1) == seq![value as u8],
{
    reveal_with_fuel(le_bytes, 2);
}

/// The two bytes of a number below 65536.
pub proof fn lemma_le_bytes_2(value: int)
    requires
        0 <= value < 0x1_0000,
    ensures
        le_bytes(value, 2) == seq![(value % 256) as u8, (value / 256) as u8],
{
    lemma_le_bytes_1(value / 256);
}

/// The four bytes of a number below 2 to the 32.
pub proof fn lemma_le_bytes_4(value: int)
    requires
        0 <= value < 0x1_0000_0000,
    ensures
        le_bytes(value, 4) == seq![
            (value % 256) as u8,
            (value / 256 % 256) as u8,
            (value / 0x1_0000 % 256) as u8,
            (value / 0x100_0000) as u8,
        ],
{
    let v1 = value / 256;
    let v2 = v1 / 256;
    assert(v2 / 256 == value / 0x100_0000);
    lemma_le_bytes_2(v2);
    assert(le_bytes(v1, 3) =~= seq![(v1 % 256) as u8] + le_bytes(v2, 2));
}

} // verus!

verus! {

/// A number that fits `width` bytes is the number that its bytes hold.
pub proof fn lemma_number_roundtrip(value: int, width: nat)
    requires
        width == 1 || width == 2 || width == 4,
        0 <= value < radix(width),
    ensures
        le_bytes(value, width).len() == width,
        le_unsigned(le_bytes(value, width)) == value,
{
    if width == 1 {
        lemma_le_bytes_1(value);
        lemma_le_unsigned_1(le_bytes(value, 1));
    } else if width == 2 {
        lemma_le_bytes_2(value);
        lemma_le_unsigned_2(le_bytes(value, 2));
    } else {
        lemma_le_bytes_4(value);
        lemma_le_unsigned_4(le_bytes(value, 4));
    }
}

/// One, two or four bytes are the bytes of the number that they hold.
pub proof fn lemma_bytes_roundtrip(bytes: Seq<u8>)
    requires
        bytes.len() == 1 || bytes.len() == 2 || bytes.len() == 4,
    ensures
        0 <= le_unsigned(bytes) < radix(bytes.len()),
        le_bytes(le_unsigned(bytes), bytes.len()) == bytes,
{
    let value = le_unsigned(bytes);
    if bytes.len() == 1 {
        lemma_le_unsigned_1(bytes);
        lemma_le_bytes_1(value);
        assert(le_bytes(value, 1) =~= bytes);
    } else if bytes.len() == 2 {
        lemma_le_unsigned_2(bytes);
        lemma_le_bytes_2(value);
    } else {
        lemma_le_unsigned_4(bytes);
        lemma_le_bytes_4(value);
    }
}

/// Bytes that begin with the wire form of a value are read as that value.
pub proof fn lemma_value_roundtrip(value: DataValue, bytes: Seq<u8>)
    requires
        value.tag().on_wire(),
        bytes.len() >= value.tag().width(),
        bytes.take(value.tag().width() as int) == value.to_wire(),
    ensures
        DataValue::from_wire(value.tag(), bytes) == Some(value),
{
    match value {
        DataValue::Integer8(v) => lemma_number_roundtrip(to_unsigned(v as int, 1), 1),
        DataValue::Integer16(v) => lemma_number_roundtrip(to_unsigned(v as int, 2), 2),
        DataValue::Integer32(v) => lemma_number_roundtrip(to_unsigned(v as int, 4), 4),
        DataValue::Unsigned8(v) => lemma_number_roundtrip(v as int, 1),
        DataValue::Unsigned16(v) => lemma_number_roundtrip(v as int, 2),
        DataValue::Unsigned32(v) => lemma_number_roundtrip(v as int, 4),
        _ => {},
    }
}

/// What is read from bytes has the type that was asked for, and its wire form
/// is the bytes that were read.
pub proof fn lemma_wire_roundtrip(tag: DataType, bytes: Seq<u8>)
    requires
        tag.on_wire(),
        bytes.len() >= tag.width(),
    ensures
        DataValue::from_wire(tag, bytes) is Some,
        DataValue::from_wire(tag, bytes)->0.tag() == tag,
        DataValue::from_wire(tag, bytes)->0.to_wire() == bytes.take(tag.width() as int),
{
    lemma_bytes_roundtrip(bytes.take(tag.width() as int));
}

} // verus!
