//! Display strings: the one form in which every cell reaches the table.

use crate::decimal::{decimal, signed_decimal, unsigned_decimal};
use crate::readers::{
    date_format, date_notation, rfc3339_notation, timestamp_format, timestamp_notation,
    timestamptz_to_rfc3339,
};
use crate::value::{decode_cell, decoded, CellValue, CellValueView};
use crate::wire::{
    family_of, optional_text, RawCell, RawCellView, TypeFamily, WireType, WireTypeView,
};
use vstd::prelude::*;
use vstd::string::*;
use vstd::utf8::{encode_utf8, encode_utf8_decode_utf8, encode_utf8_valid_utf8};

verus! {

/// The pattern after which a date is written: year, month, day.
pub open spec fn date_pattern() -> Seq<char> {
    "%Y-%m-%d"@
}

/// The pattern after which a timestamp without time zone is written: date,
/// time of day, and six digits of the second's fraction.
pub open spec fn timestamp_pattern() -> Seq<char> {
    "%Y-%m-%d %H:%M:%S%.6f"@
}

/// What stands between the brackets of a failure marker: the name of the
/// family, or the name of the type where it is of no known family.
pub open spec fn category(ty: WireTypeView) -> Seq<char> {
    match family_of(ty.oid) {
        TypeFamily::Integer => "int"@,
        TypeFamily::Float => "float/numeric"@,
        TypeFamily::Boolean => "bool"@,
        TypeFamily::Text => "text"@,
        TypeFamily::Binary => "bytea"@,
        TypeFamily::Date => "date"@,
        TypeFamily::Timestamp => "timestamp"@,
        TypeFamily::TimestampTz => "timestamptz"@,
        TypeFamily::Other => ty.name,
    }
}

/// The marker that stands in for a cell that could not be read as its type.
pub open spec fn failure_marker(ty: WireTypeView) -> Seq<char> {
    "ERR:TYPE("@ + category(ty) + ")"@
}

/// A calendar notation where there is one, the failure marker of the type
/// where there is none.
pub open spec fn notation_or_marker(notation: Option<Seq<char>>, ty: WireTypeView) -> Seq<char> {
    match notation {
        Some(text) => text,
        None => failure_marker(ty),
    }
}

/// The display string of a typed value in a column of type `ty`.
pub open spec fn displayed(ty: WireTypeView, value: CellValueView) -> Seq<char> {
    match value {
        CellValueView::Null => "NULL"@,
        CellValueView::Integer(v) => decimal(v),
        CellValueView::Float(text) => text,
        CellValueView::Boolean(b) => if b {
            "true"@
        } else {
            "false"@
        },
        CellValueView::Text(text) => text,
        CellValueView::Binary(bytes) => "["@ + decimal(bytes.len() as int) + " bytes]"@,
        CellValueView::Date(days) => notation_or_marker(date_notation(days, date_pattern()), ty),
        CellValueView::Timestamp(micros) => notation_or_marker(
            timestamp_notation(micros, timestamp_pattern()),
            ty,
        ),
        CellValueView::TimestampTz(micros) => notation_or_marker(rfc3339_notation(micros), ty),
        CellValueView::Undecodable => failure_marker(ty),
    }
}

/// The display string of a raw cell in a column of type `ty`.
pub open spec fn rendered(ty: WireTypeView, cell: RawCellView) -> Seq<char> {
    displayed(ty, decoded(ty, cell))
}

/// A null cell is displayed as `NULL`, whatever the type of its column.
pub proof fn lemma_null_is_displayed_as_null(ty: WireTypeView, cell: RawCellView)
    requires
        cell.bytes is None,
    ensures
        rendered(ty, cell) == "NULL"@,
{
}

/// A cell of a byte-array column is displayed as the count of its bytes
/// between `[` and ` bytes]`, whatever the bytes are.
pub proof fn lemma_binary_is_displayed_as_length(ty: WireTypeView, cell: RawCellView)
    requires
        family_of(ty.oid) == TypeFamily::Binary,
        cell.bytes is Some,
    ensures
        rendered(ty, cell) == "["@ + decimal(cell.bytes.unwrap().len() as int) + " bytes]"@,
{
}

/// A cell of a text column that holds the UTF-8 encoding of a text is
/// displayed as that text, letter for letter.
pub proof fn lemma_text_is_displayed_verbatim(ty: WireTypeView, cell: RawCellView, text: Seq<char>)
    requires
        family_of(ty.oid) == TypeFamily::Text,
        cell.bytes == Some(encode_utf8(text)),
    ensures
        rendered(ty, cell) == text,
{
    encode_utf8_valid_utf8(text);
    encode_utf8_decode_utf8(text);
}

/// Writes the failure marker of a type.
pub fn failure_marker_text(ty: &WireType) -> (text: String)
    ensures
        text@ == failure_marker(ty@),
{
    let mut text = String::from_str("ERR:TYPE(");
    match ty.family() {
        TypeFamily::Integer => text.append("int"),
        TypeFamily::Float => text.append("float/numeric"),
        TypeFamily::Boolean => text.append("bool"),
        TypeFamily::Text => text.append("text"),
        TypeFamily::Binary => text.append("bytea"),
        TypeFamily::Date => text.append("date"),
        TypeFamily::Timestamp => text.append("timestamp"),
        TypeFamily::TimestampTz => text.append("timestamptz"),
        TypeFamily::Other => text.append(ty.name.as_str()),
    }
    text.append(")");
    text
}

/// Hands a calendar notation on, or writes the failure marker of the type
/// where there is none.
pub fn notation_or_marker_text(notation: Option<String>, ty: &WireType) -> (text: String)
    ensures
        text@ == notation_or_marker(optional_text(notation), ty@),
{
    match notation {
        Some(written) => written,
        None => failure_marker_text(ty),
    }
}

/// Writes the display string of a typed value in a column of type `ty`.
pub fn display(ty: &WireType, value: CellValue) -> (text: String)
    ensures
        text@ == displayed(ty@, value@),
{
    match value {
        CellValue::Null => String::from_str("NULL"),
        CellValue::Integer(v) => signed_decimal(v),
        CellValue::Float(written) => written,
        CellValue::Boolean(b) => if b {
            String::from_str("true")
        } else {
            String::from_str("false")
        },
        CellValue::Text(written) => written,
        CellValue::Binary(bytes) => {
            let mut text = String::from_str("[");
            let count = unsigned_decimal(bytes.len() as u64);
            text.append(count.as_str());
            text.append(" bytes]");
            text
        },
        CellValue::Date(days) => notation_or_marker_text(date_format(days, "%Y-%m-%d"), ty),
        CellValue::Timestamp(micros) => notation_or_marker_text(
            timestamp_format(micros, "%Y-%m-%d %H:%M:%S%.6f"),
            ty,
        ),
        CellValue::TimestampTz(micros) => notation_or_marker_text(
            timestamptz_to_rfc3339(micros),
            ty,
        ),
        CellValue::Undecodable => failure_marker_text(ty),
    }
}

/// Writes the display string of a raw cell in a column of type `ty`. A cell
/// that cannot be read as its type is displayed as a failure marker: no cell
/// makes the call fail.
pub fn render(ty: &WireType, cell: &RawCell) -> (text: String)
    ensures
        text@ == rendered(ty@, cell@),
{
    display(ty, decode_cell(ty, cell))
}

} // verus!
