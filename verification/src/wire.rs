//! What a database engine sends back, before any of it is interpreted: wire
//! types, column descriptors, and rows of cells.

use vstd::prelude::*;

verus! {

/// Type identifiers of the PostgreSQL protocol that the library tells apart.
pub const BOOL_OID: u32 = 16;

pub const BYTEA_OID: u32 = 17;

pub const NAME_OID: u32 = 19;

pub const INT8_OID: u32 = 20;

pub const INT2_OID: u32 = 21;

pub const INT4_OID: u32 = 23;

pub const TEXT_OID: u32 = 25;

pub const OID_OID: u32 = 26;

pub const FLOAT4_OID: u32 = 700;

pub const FLOAT8_OID: u32 = 701;

pub const UNKNOWN_OID: u32 = 705;

pub const VARCHAR_OID: u32 = 1043;

pub const DATE_OID: u32 = 1082;

pub const TIMESTAMP_OID: u32 = 1114;

pub const TIMESTAMPTZ_OID: u32 = 1184;

pub const NUMERIC_OID: u32 = 1700;

/// The groups of wire types that share a way of being read and displayed.
#[derive(Clone, Copy, Debug, PartialEq, Eq)]
pub enum TypeFamily {
    /// Two-, four- and eight-byte integers, and object identifiers.
    Integer,
    /// Four- and eight-byte floats, and arbitrary-precision numbers.
    Float,
    Boolean,
    /// `text`, `varchar`, `name` and `unknown`.
    Text,
    /// Byte arrays.
    Binary,
    Date,
    /// Timestamps without a time zone.
    Timestamp,
    /// Timestamps with a time zone.
    TimestampTz,
    /// Every other type.
    Other,
}

/// The family that a type identifier belongs to.
pub open spec fn family_of(oid: u32) -> TypeFamily {
    if oid == INT2_OID || oid == INT4_OID || oid == INT8_OID || oid == OID_OID {
        TypeFamily::Integer
    } else if oid == FLOAT4_OID || oid == FLOAT8_OID || oid == NUMERIC_OID {
        TypeFamily::Float
    } else if oid == BOOL_OID {
        TypeFamily::Boolean
    } else if oid == TEXT_OID || oid == VARCHAR_OID || oid == NAME_OID || oid == UNKNOWN_OID {
        TypeFamily::Text
    } else if oid == BYTEA_OID {
        TypeFamily::Binary
    } else if oid == DATE_OID {
        TypeFamily::Date
    } else if oid == TIMESTAMP_OID {
        TypeFamily::Timestamp
    } else if oid == TIMESTAMPTZ_OID {
        TypeFamily::TimestampTz
    } else {
        TypeFamily::Other
    }
}

/// The number that `bytes` write in base 256, most significant byte first.
pub open spec fn big_endian(bytes: Seq<u8>) -> nat
    decreases bytes.len(),
{
    if bytes.len() == 0 {
        0
    } else {
        big_endian(bytes.drop_last()) * 256 + bytes.last() as nat
    }
}

/// 256 to the power of `n`: how many values `n` bytes can take.
pub open spec fn radix_power(n: nat) -> nat
    decreases n,
{
    if n == 0 {
        1
    } else {
        radix_power((n - 1) as nat) * 256
    }
}

/// The signed number that `bytes` write in two's complement, most
/// significant byte first: the upper half of the unsigned range stands for the
/// negative numbers.
pub open spec fn big_endian_signed(bytes: Seq<u8>) -> int {
    if 2 * big_endian(bytes) >= radix_power(bytes.len()) {
        big_endian(bytes) - radix_power(bytes.len())
    } else {
        big_endian(bytes) as int
    }
}

/// The number that `n` bytes write is below 256 to the power of `n`, and
/// the signed number lies in the range of the signed integer of that width.
pub proof fn lemma_big_endian_range(bytes: Seq<u8>)
    ensures
        big_endian(bytes) < radix_power(bytes.len()),
        -radix_power(bytes.len()) <= 2 * big_endian_signed(bytes) < radix_power(bytes.len()),
    decreases bytes.len(),
{
    if bytes.len() > 0 {
        lemma_big_endian_range(bytes.drop_last());
    }
}

/// The numbers that two, four and eight bytes write fit the integers of
/// those widths: what a reader of such an integer is said to return, it can
/// return.
pub proof fn lemma_integer_readings_fit(bytes: Seq<u8>)
    ensures
        bytes.len() == 2 ==> i16::MIN <= big_endian_signed(bytes) <= i16::MAX,
        bytes.len() == 4 ==> i32::MIN <= big_endian_signed(bytes) <= i32::MAX,
        bytes.len() == 4 ==> big_endian(bytes) <= u32::MAX,
        bytes.len() == 8 ==> i64::MIN <= big_endian_signed(bytes) <= i64::MAX,
{
    lemma_big_endian_range(bytes);
    reveal_with_fuel(radix_power, 9);
}

/// The type tag that the engine attaches to a column: its identifier in the
/// protocol and its name. For a type that the protocol defines, the identifier
/// alone decides how values are read; an extension type is known by its name.
#[derive(Clone, Debug)]
pub struct WireType {
    pub oid: u32,
    pub name: String,
}

/// A `WireType` as contracts see it.
pub struct WireTypeView {
    pub oid: u32,
    pub name: Seq<char>,
}

impl View for WireType {
    type V = WireTypeView;

    open spec fn view(&self) -> WireTypeView {
        WireTypeView { oid: self.oid, name: self.name@ }
    }
}

impl WireType {
    /// The family of this type.
    pub fn family(&self) -> (family: TypeFamily)
        ensures
            family == family_of(self.oid),
    {
        let oid: u32 = self.oid;
        if oid == INT2_OID || oid == INT4_OID || oid == INT8_OID || oid == OID_OID {
            TypeFamily::Integer
        } else if oid == FLOAT4_OID || oid == FLOAT8_OID || oid == NUMERIC_OID {
            TypeFamily::Float
        } else if oid == BOOL_OID {
            TypeFamily::Boolean
        } else if oid == TEXT_OID || oid == VARCHAR_OID || oid == NAME_OID || oid == UNKNOWN_OID {
            TypeFamily::Text
        } else if oid == BYTEA_OID {
            TypeFamily::Binary
        } else if oid == DATE_OID {
            TypeFamily::Date
        } else if oid == TIMESTAMP_OID {
            TypeFamily::Timestamp
        } else if oid == TIMESTAMPTZ_OID {
            TypeFamily::TimestampTz
        } else {
            TypeFamily::Other
        }
    }
}

/// A column of a result: its name and its wire type.
#[derive(Clone, Debug)]
pub struct ColumnDescriptor {
    pub name: String,
    pub wire_type: WireType,
}

/// A `ColumnDescriptor` as contracts see it.
pub struct ColumnView {
    pub name: Seq<char>,
    pub wire_type: WireTypeView,
}

impl View for ColumnDescriptor {
    type V = ColumnView;

    open spec fn view(&self) -> ColumnView {
        ColumnView { name: self.name@, wire_type: self.wire_type@ }
    }
}

/// A text that may be missing, as contracts see it.
pub open spec fn optional_text(text: Option<String>) -> Option<Seq<char>> {
    match text {
        Some(text) => Some(text@),
        None => None,
    }
}

/// One value of a row as it came over the wire.
#[derive(Clone, Debug)]
pub struct RawCell {
    /// The value in the binary format of its wire type; `None` for SQL null.
    pub bytes: Option<Vec<u8>>,
    /// The value in default numeric formatting, where the driver reads the
    /// cell as a floating-point number; `None` where it does not. The library
    /// holds no floating-point numbers: it takes this reading as it is given.
    pub float_text: Option<String>,
}

/// A `RawCell` as contracts see it.
pub struct RawCellView {
    pub bytes: Option<Seq<u8>>,
    pub float_text: Option<Seq<char>>,
}

impl View for RawCell {
    type V = RawCellView;

    open spec fn view(&self) -> RawCellView {
        RawCellView {
            bytes: match self.bytes {
                Some(bytes) => Some(bytes@),
                None => None,
            },
            float_text: optional_text(self.float_text),
        }
    }
}

/// A row of a result set, with the column metadata that came with it.
#[derive(Clone, Debug)]
pub struct RawRow {
    pub columns: Vec<ColumnDescriptor>,
    pub cells: Vec<RawCell>,
}

/// A `RawRow` as contracts see it.
pub struct RawRowView {
    pub columns: Seq<ColumnView>,
    pub cells: Seq<RawCellView>,
}

impl View for RawRow {
    type V = RawRowView;

    open spec fn view(&self) -> RawRowView {
        RawRowView {
            columns: Seq::new(self.columns@.len(), |i: int| self.columns@[i]@),
            cells: Seq::new(self.cells@.len(), |i: int| self.cells@[i]@),
        }
    }
}

} // verus!
