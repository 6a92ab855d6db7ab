//! Typed cell values: what a raw cell holds once it is read as its wire type
//! asks.

use crate::readers::{
    bool_from_sql, bytea_from_sql, date_from_sql, date_reading, int2_from_sql, int4_from_sql,
    int8_from_sql, oid_from_sql, text_accepted, text_accepts, text_from_sql, text_reading,
    timestamp_from_sql, timestamp_reading, timestamptz_from_sql, timestamptz_reading,
};
use crate::wire::{
    big_endian, big_endian_signed, family_of, optional_text, RawCell, RawCellView, TypeFamily,
    WireType, WireTypeView, INT2_OID, INT4_OID, INT8_OID, OID_OID,
};
use vstd::prelude::*;
use vstd::utf8::{decode_utf8, valid_utf8};

verus! {

/// The value of one cell, read from its wire format.
#[derive(Clone, Debug)]
pub enum CellValue {
    /// SQL null.
    Null,
    Integer(i64),
    /// A floating-point number, held in default numeric formatting.
    Float(String),
    Boolean(bool),
    Text(String),
    Binary(Vec<u8>),
    /// A calendar day, counted in days from 1970-01-01.
    Date(i32),
    /// A moment without time zone, in microseconds from 1970-01-01 00:00:00.
    Timestamp(i64),
    /// A moment in microseconds from 1970-01-01 00:00:00 UTC.
    TimestampTz(i64),
    /// The bytes are not a value of the declared type.
    Undecodable,
}

/// A `CellValue` as contracts see it.
pub enum CellValueView {
    Null,
    Integer(int),
    Float(Seq<char>),
    Boolean(bool),
    Text(Seq<char>),
    Binary(Seq<u8>),
    Date(i32),
    Timestamp(i64),
    TimestampTz(i64),
    Undecodable,
}

impl View for CellValue {
    type V = CellValueView;

    open spec fn view(&self) -> CellValueView {
        match self {
            CellValue::Null => CellValueView::Null,
            CellValue::Integer(v) => CellValueView::Integer(*v as int),
            CellValue::Float(text) => CellValueView::Float(text@),
            CellValue::Boolean(b) => CellValueView::Boolean(*b),
            CellValue::Text(text) => CellValueView::Text(text@),
            CellValue::Binary(bytes) => CellValueView::Binary(bytes@),
            CellValue::Date(days) => CellValueView::Date(*days),
            CellValue::Timestamp(micros) => CellValueView::Timestamp(*micros),
            CellValue::TimestampTz(micros) => CellValueView::TimestampTz(*micros),
            CellValue::Undecodable => CellValueView::Undecodable,
        }
    }
}

/// A text reading as a value: the text where the type is read as text and the
/// bytes hold one, and no value otherwise.
pub open spec fn text_value(accepted: bool, reading: Option<Seq<char>>) -> CellValueView {
    match reading {
        Some(text) if accepted => CellValueView::Text(text),
        _ => CellValueView::Undecodable,
    }
}

/// The bytes of a text type as a value: their decoding where they are valid
/// UTF-8, and no value where they are not.
pub open spec fn utf8_value(raw: Seq<u8>) -> CellValueView {
    if valid_utf8(raw) {
        CellValueView::Text(decode_utf8(raw))
    } else {
        CellValueView::Undecodable
    }
}

/// How many bytes a value of an integer type takes on the wire.
pub open spec fn integer_width(oid: u32) -> nat {
    if oid == INT2_OID {
        2
    } else if oid == INT8_OID {
        8
    } else {
        4
    }
}

/// The bytes of an integer type as a value: a number where they are as many
/// as the type takes, read most significant byte first, an object identifier
/// as unsigned and the others in two's complement.
pub open spec fn integer_value(oid: u32, raw: Seq<u8>) -> CellValueView {
    if raw.len() != integer_width(oid) {
        CellValueView::Undecodable
    } else if oid == OID_OID {
        CellValueView::Integer(big_endian(raw) as int)
    } else {
        CellValueView::Integer(big_endian_signed(raw))
    }
}

/// A date reading as a value.
pub open spec fn date_value(reading: Option<i32>) -> CellValueView {
    match reading {
        Some(days) => CellValueView::Date(days),
        None => CellValueView::Undecodable,
    }
}

/// A reading of a timestamp without time zone as a value.
pub open spec fn timestamp_value(reading: Option<i64>) -> CellValueView {
    match reading {
        Some(micros) => CellValueView::Timestamp(micros),
        None => CellValueView::Undecodable,
    }
}

/// A reading of a timestamp with time zone as a value.
pub open spec fn timestamptz_value(reading: Option<i64>) -> CellValueView {
    match reading {
        Some(micros) => CellValueView::TimestampTz(micros),
        None => CellValueView::Undecodable,
    }
}

/// The text of a cell as a value: for the text family the decoding of its
/// bytes, for any other type what the driver reads where it reads that type as
/// text.
pub open spec fn text_of(ty: WireTypeView, raw: Seq<u8>) -> CellValueView {
    if family_of(ty.oid) == TypeFamily::Text {
        utf8_value(raw)
    } else {
        text_value(text_accepted(ty.oid, ty.name), text_reading(ty.oid, ty.name, raw))
    }
}

/// The float of a cell as a value: what the driver read, where it read one.
pub open spec fn float_value(float_text: Option<Seq<char>>) -> CellValueView {
    match float_text {
        Some(text) => CellValueView::Float(text),
        None => CellValueView::Undecodable,
    }
}

/// One byte as a boolean: zero is false, anything else true.
pub open spec fn boolean_value(raw: Seq<u8>) -> CellValueView {
    if raw.len() == 1 {
        CellValueView::Boolean(raw[0] != 0)
    } else {
        CellValueView::Undecodable
    }
}

/// The value of a cell of type `ty`.
///
/// Null comes first, whatever the type. Otherwise the family of the type
/// chooses the reading: a float is taken as the driver read it and, failing
/// that, as text; a type of no known family is tried as text. Where no reading
/// succeeds the cell is undecodable.
pub open spec fn decoded(ty: WireTypeView, cell: RawCellView) -> CellValueView {
    match cell.bytes {
        None => CellValueView::Null,
        Some(raw) => match family_of(ty.oid) {
            TypeFamily::Integer => integer_value(ty.oid, raw),
            TypeFamily::Float => match cell.float_text {
                Some(text) => CellValueView::Float(text),
                None => text_of(ty, raw),
            },
            TypeFamily::Boolean => boolean_value(raw),
            TypeFamily::Text => utf8_value(raw),
            TypeFamily::Binary => CellValueView::Binary(raw),
            TypeFamily::Date => date_value(date_reading(raw)),
            TypeFamily::Timestamp => timestamp_value(timestamp_reading(raw)),
            TypeFamily::TimestampTz => timestamptz_value(timestamptz_reading(raw)),
            TypeFamily::Other => text_of(ty, raw),
        },
    }
}

/// The ways of reading the bytes of a cell. Each is tried on its own and
/// either gives a value or gives up.
#[derive(Clone, Copy, Debug, PartialEq, Eq)]
pub enum Reader {
    Integer,
    Float,
    Boolean,
    Text,
    Binary,
    Date,
    Timestamp,
    TimestampTz,
}

/// The readers that a family tries, in the order in which it tries them.
pub open spec fn readers_of(family: TypeFamily) -> Seq<Reader> {
    match family {
        TypeFamily::Integer => seq![Reader::Integer],
        TypeFamily::Float => seq![Reader::Float, Reader::Text],
        TypeFamily::Boolean => seq![Reader::Boolean],
        TypeFamily::Text => seq![Reader::Text],
        TypeFamily::Binary => seq![Reader::Binary],
        TypeFamily::Date => seq![Reader::Date],
        TypeFamily::Timestamp => seq![Reader::Timestamp],
        TypeFamily::TimestampTz => seq![Reader::TimestampTz],
        TypeFamily::Other => seq![Reader::Text],
    }
}

/// What one reader makes of a cell that is not null: a value, or
/// `Undecodable` where it gives up.
pub open spec fn reading_of(
    reader: Reader,
    ty: WireTypeView,
    raw: Seq<u8>,
    float_text: Option<Seq<char>>,
) -> CellValueView {
    match reader {
        Reader::Integer => if family_of(ty.oid) == TypeFamily::Integer {
            integer_value(ty.oid, raw)
        } else {
            CellValueView::Undecodable
        },
        Reader::Float => float_value(float_text),
        Reader::Boolean => boolean_value(raw),
        Reader::Text => text_of(ty, raw),
        Reader::Binary => CellValueView::Binary(raw),
        Reader::Date => date_value(date_reading(raw)),
        Reader::Timestamp => timestamp_value(timestamp_reading(raw)),
        Reader::TimestampTz => timestamptz_value(timestamptz_reading(raw)),
    }
}

/// The value of the first reader in `readers` that does not give up, and
/// `Undecodable` where all of them do.
pub open spec fn first_reading(
    readers: Seq<Reader>,
    ty: WireTypeView,
    raw: Seq<u8>,
    float_text: Option<Seq<char>>,
) -> CellValueView
    decreases readers.len(),
{
    if readers.len() == 0 {
        CellValueView::Undecodable
    } else if reading_of(readers[0], ty, raw, float_text) is Undecodable {
        first_reading(readers.drop_first(), ty, raw, float_text)
    } else {
        reading_of(readers[0], ty, raw, float_text)
    }
}

/// The value of a cell that is not null is what the first successful reader
/// of its family makes of it.
pub proof fn lemma_decoded_is_first_reading(ty: WireTypeView, cell: RawCellView)
    requires
        cell.bytes is Some,
    ensures
        decoded(ty, cell) == first_reading(
            readers_of(family_of(ty.oid)),
            ty,
            cell.bytes.unwrap(),
            cell.float_text,
        ),
{
    reveal_with_fuel(first_reading, 3);
}

impl CellValue {
    /// The value that a text reading gives: `accepted` says whether the type
    /// is read as text at all, `reading` what was read.
    pub fn from_text_reading(accepted: bool, reading: Option<String>) -> (value: CellValue)
        ensures
            value@ == text_value(accepted, optional_text(reading)),
    {
        match reading {
            Some(text) => if accepted {
                CellValue::Text(text)
            } else {
                CellValue::Undecodable
            },
            None => CellValue::Undecodable,
        }
    }

    /// The value that a date reading gives.
    pub fn from_date_reading(reading: Option<i32>) -> (value: CellValue)
        ensures
            value@ == date_value(reading),
    {
        match reading {
            Some(days) => CellValue::Date(days),
            None => CellValue::Undecodable,
        }
    }

    /// The value that a reading of a timestamp without time zone gives.
    pub fn from_timestamp_reading(reading: Option<i64>) -> (value: CellValue)
        ensures
            value@ == timestamp_value(reading),
    {
        match reading {
            Some(micros) => CellValue::Timestamp(micros),
            None => CellValue::Undecodable,
        }
    }

    /// The value that a reading of a timestamp with time zone gives.
    pub fn from_timestamptz_reading(reading: Option<i64>) -> (value: CellValue)
        ensures
            value@ == timestamptz_value(reading),
    {
        match reading {
            Some(micros) => CellValue::TimestampTz(micros),
            None => CellValue::Undecodable,
        }
    }
}

fn read_integer(ty: &WireType, raw: &[u8]) -> (value: CellValue)
    requires
        family_of(ty.oid) == TypeFamily::Integer,
    ensures
        value@ == integer_value(ty.oid, raw@),
{
    let reading: Option<i64> = if ty.oid == INT2_OID {
        match int2_from_sql(raw) {
            Some(v) => Some(v as i64),
            None => None,
        }
    } else if ty.oid == INT4_OID {
        match int4_from_sql(raw) {
            Some(v) => Some(v as i64),
            None => None,
        }
    } else if ty.oid == INT8_OID {
        int8_from_sql(raw)
    } else {
        match oid_from_sql(raw) {
            Some(v) => Some(v as i64),
            None => None,
        }
    };
    match reading {
        Some(v) => CellValue::Integer(v),
        None => CellValue::Undecodable,
    }
}

fn read_text(ty: &WireType, raw: &[u8]) -> (value: CellValue)
    ensures
        value@ == text_of(ty@, raw@),
{
    let accepted = text_accepts(ty);
    let reading = text_from_sql(ty, raw);
    CellValue::from_text_reading(accepted, reading)
}

/// The readers that a family tries, in the order in which it tries them.
pub fn readers_for(family: TypeFamily) -> (readers: Vec<Reader>)
    ensures
        readers@ == readers_of(family),
{
    let mut readers: Vec<Reader> = Vec::new();
    match family {
        TypeFamily::Integer => readers.push(Reader::Integer),
        TypeFamily::Float => {
            readers.push(Reader::Float);
            readers.push(Reader::Text);
        },
        TypeFamily::Boolean => readers.push(Reader::Boolean),
        TypeFamily::Text => readers.push(Reader::Text),
        TypeFamily::Binary => readers.push(Reader::Binary),
        TypeFamily::Date => readers.push(Reader::Date),
        TypeFamily::Timestamp => readers.push(Reader::Timestamp),
        TypeFamily::TimestampTz => readers.push(Reader::TimestampTz),
        TypeFamily::Other => readers.push(Reader::Text),
    }
    readers
}

/// Tries one reader on the bytes of a cell that is not null; `float_text` is
/// the cell's float reading, where it has one.
pub fn read_with(reader: Reader, ty: &WireType, raw: &[u8], float_text: &Option<String>) -> (value:
    CellValue)
    ensures
        value@ == reading_of(reader, ty@, raw@, optional_text(*float_text)),
{
    match reader {
        Reader::Integer => match ty.family() {
            TypeFamily::Integer => read_integer(ty, raw),
            _ => CellValue::Undecodable,
        },
        Reader::Float => match float_text {
            Some(text) => CellValue::Float(text.clone()),
            None => CellValue::Undecodable,
        },
        Reader::Boolean => match bool_from_sql(raw) {
            Some(b) => CellValue::Boolean(b),
            None => CellValue::Undecodable,
        },
        Reader::Text => read_text(ty, raw),
        Reader::Binary => match bytea_from_sql(raw) {
            Some(copy) => CellValue::Binary(copy),
            None => CellValue::Undecodable,
        },
        Reader::Date => CellValue::from_date_reading(date_from_sql(raw)),
        Reader::Timestamp => CellValue::from_timestamp_reading(timestamp_from_sql(raw)),
        Reader::TimestampTz => CellValue::from_timestamptz_reading(timestamptz_from_sql(raw)),
    }
}

/// Reads a cell as its wire type asks: null as null, and anything else with
/// the readers of the type's family, one after the other, until one of them
/// gives a value.
pub fn decode_cell(ty: &WireType, cell: &RawCell) -> (value: CellValue)
    ensures
        value@ == decoded(ty@, cell@),
{
    let raw = match &cell.bytes {
        Some(bytes) => bytes.as_slice(),
        None => {
            return CellValue::Null;
        },
    };
    let readers = readers_for(ty.family());
    proof {
        lemma_decoded_is_first_reading(ty@, cell@);
        assert(readers@.subrange(0, readers@.len() as int) =~= readers@);
    }
    let mut i: usize = 0;
    while i < readers.len()
        invariant
            i <= readers@.len(),
            cell@.bytes == Some(raw@),
            decoded(ty@, cell@) == first_reading(
                readers@.subrange(i as int, readers@.len() as int),
                ty@,
                raw@,
                cell@.float_text,
            ),
        decreases readers@.len() - i,
    {
        let ghost rest = readers@.subrange(i as int, readers@.len() as int);
        let value = read_with(readers[i], ty, raw, &cell.float_text);
        proof {
            assert(rest.drop_first() =~= readers@.subrange(i + 1, readers@.len() as int));
        }
        match value {
            CellValue::Undecodable => {},
            read => {
                return read;
            },
        }
        i += 1;
    }
    CellValue::Undecodable
}

} // verus!
