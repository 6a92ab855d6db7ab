//! The readers of the PostgreSQL driver and the calendar notations of
//! `chrono`, as the library calls them. Nothing in this file is proved: each
//! function states what the code it calls is taken to do.

use crate::render::{date_pattern, timestamp_pattern};
use crate::wire::{
    big_endian, big_endian_signed, family_of, optional_text, TypeFamily, WireType,
};
use chrono::{DateTime, NaiveDate, NaiveDateTime, Utc};
use tokio_postgres::types::{FromSql, Kind, Type};
use vstd::prelude::*;
use vstd::utf8::{decode_utf8, valid_utf8};

verus! {

/// Whether the driver reads a value of the type with this identifier and
/// name as text.
pub uninterp spec fn text_accepted(oid: u32, name: Seq<char>) -> bool;

/// The text that the driver reads from `raw` for the type with this
/// identifier and name; `None` where it reads none.
pub uninterp spec fn text_reading(oid: u32, name: Seq<char>, raw: Seq<u8>) -> Option<Seq<char>>;

/// The day that the driver reads from `raw`, counted from 1970-01-01; `None`
/// where it reads none.
pub uninterp spec fn date_reading(raw: Seq<u8>) -> Option<i32>;

/// The moment that the driver reads from `raw` as a timestamp without time
/// zone, in microseconds from 1970-01-01 00:00:00; `None` where it reads none.
pub uninterp spec fn timestamp_reading(raw: Seq<u8>) -> Option<i64>;

/// The moment that the driver reads from `raw` as a timestamp with time
/// zone, in microseconds from 1970-01-01 00:00:00 UTC; `None` where it reads
/// none.
pub uninterp spec fn timestamptz_reading(raw: Seq<u8>) -> Option<i64>;

/// The day `days` after 1970-01-01 written after `pattern`; `None` where the
/// calendar has no such day or the pattern does not apply to a date.
pub uninterp spec fn date_notation(days: i32, pattern: Seq<char>) -> Option<Seq<char>>;

/// The moment `micros` microseconds after 1970-01-01 00:00:00 written after
/// `pattern`; `None` where the calendar has no such moment or the pattern is
/// malformed.
pub uninterp spec fn timestamp_notation(micros: i64, pattern: Seq<char>) -> Option<Seq<char>>;

/// The moment `micros` microseconds after 1970-01-01 00:00:00 UTC in the
/// notation of RFC 3339; `None` where the calendar has no such moment.
pub uninterp spec fn rfc3339_notation(micros: i64) -> Option<Seq<char>>;

/// Calls `<i16 as FromSql>::from_sql`, which does not look at the type. It
/// reads exactly two bytes, as a signed number with the most significant byte
/// first, and fails on any other length.
#[verifier::external_body]
pub(crate) fn int2_from_sql(raw: &[u8]) -> (reading: Option<i16>)
    ensures
        raw@.len() == 2 ==> reading is Some && reading.unwrap() as int == big_endian_signed(raw@),
        raw@.len() != 2 ==> reading is None,
{
    match <i16 as FromSql>::from_sql(&Type::INT2, raw) {
        Ok(value) => Some(value),
        Err(_) => None,
    }
}

/// Calls `<i32 as FromSql>::from_sql`, which does not look at the type. It
/// reads exactly four bytes, as a signed number with the most significant
/// byte first, and fails on any other length.
#[verifier::external_body]
pub(crate) fn int4_from_sql(raw: &[u8]) -> (reading: Option<i32>)
    ensures
        raw@.len() == 4 ==> reading is Some && reading.unwrap() as int == big_endian_signed(raw@),
        raw@.len() != 4 ==> reading is None,
{
    match <i32 as FromSql>::from_sql(&Type::INT4, raw) {
        Ok(value) => Some(value),
        Err(_) => None,
    }
}

/// Calls `<i64 as FromSql>::from_sql`, which does not look at the type. It
/// reads exactly eight bytes, as a signed number with the most significant
/// byte first, and fails on any other length.
#[verifier::external_body]
pub(crate) fn int8_from_sql(raw: &[u8]) -> (reading: Option<i64>)
    ensures
        raw@.len() == 8 ==> reading is Some && reading.unwrap() as int == big_endian_signed(raw@),
        raw@.len() != 8 ==> reading is None,
{
    match <i64 as FromSql>::from_sql(&Type::INT8, raw) {
        Ok(value) => Some(value),
        Err(_) => None,
    }
}

/// Calls `<u32 as FromSql>::from_sql`, which does not look at the type. It
/// reads exactly four bytes, as an unsigned number with the most significant
/// byte first, and fails on any other length.
#[verifier::external_body]
pub(crate) fn oid_from_sql(raw: &[u8]) -> (reading: Option<u32>)
    ensures
        raw@.len() == 4 ==> reading is Some && reading.unwrap() as int == big_endian(raw@),
        raw@.len() != 4 ==> reading is None,
{
    match <u32 as FromSql>::from_sql(&Type::OID, raw) {
        Ok(value) => Some(value),
        Err(_) => None,
    }
}

/// Calls `<bool as FromSql>::from_sql`, which does not look at the type. It
/// reads exactly one byte, any value but zero as `true`, and fails on any
/// other length.
#[verifier::external_body]
pub(crate) fn bool_from_sql(raw: &[u8]) -> (reading: Option<bool>)
    ensures
        raw@.len() == 1 ==> reading == Some(raw@[0] != 0),
        raw@.len() != 1 ==> reading is None,
{
    match <bool as FromSql>::from_sql(&Type::BOOL, raw) {
        Ok(value) => Some(value),
        Err(_) => None,
    }
}

/// Calls `<String as FromSql>::accepts` on the driver's type for `ty`. The
/// answer depends on the identifier and the name alone, and is yes for
/// `text`, `varchar`, `name` and `unknown`.
#[verifier::external_body]
pub(crate) fn text_accepts(ty: &WireType) -> (accepted: bool)
    ensures
        accepted == text_accepted(ty.oid, ty.name@),
        family_of(ty.oid) == TypeFamily::Text ==> accepted,
{
    let native = match Type::from_oid(ty.oid) {
        Some(native) => native,
        None => Type::new(ty.name.clone(), ty.oid, Kind::Simple, String::new()),
    };
    <String as FromSql>::accepts(&native)
}

/// Calls `<String as FromSql>::from_sql` on the driver's type for `ty`. The
/// result depends on the identifier, the name and the bytes alone. For
/// `text`, `varchar`, `name` and `unknown` the driver reads the bytes as UTF-8
/// (`str::from_utf8`): it fails where they are not valid, and the text is
/// their decoding where they are.
#[verifier::external_body]
pub(crate) fn text_from_sql(ty: &WireType, raw: &[u8]) -> (reading: Option<String>)
    ensures
        optional_text(reading) == text_reading(ty.oid, ty.name@, raw@),
        family_of(ty.oid) == TypeFamily::Text ==> (reading is Some <==> valid_utf8(raw@)),
        family_of(ty.oid) == TypeFamily::Text && reading is Some ==> reading.unwrap()@
            == decode_utf8(raw@),
{
    let native = match Type::from_oid(ty.oid) {
        Some(native) => native,
        None => Type::new(ty.name.clone(), ty.oid, Kind::Simple, String::new()),
    };
    match <String as FromSql>::from_sql(&native, raw) {
        Ok(text) => Some(text),
        Err(_) => None,
    }
}

/// Calls `<Vec<u8> as FromSql>::from_sql`, which does not look at the type
/// and never fails: it copies the bytes.
#[verifier::external_body]
pub(crate) fn bytea_from_sql(raw: &[u8]) -> (reading: Option<Vec<u8>>)
    ensures
        reading is Some,
        reading.unwrap()@ == raw@,
{
    match <Vec<u8> as FromSql>::from_sql(&Type::BYTEA, raw) {
        Ok(bytes) => Some(bytes),
        Err(_) => None,
    }
}

/// Calls `<NaiveDate as FromSql>::from_sql`, which does not look at the
/// type, and hands the date back as its day count (`to_epoch_days`). The
/// result depends on the bytes alone.
#[verifier::external_body]
pub(crate) fn date_from_sql(raw: &[u8]) -> (reading: Option<i32>)
    ensures
        reading == date_reading(raw@),
{
    match <NaiveDate as FromSql>::from_sql(&Type::DATE, raw) {
        Ok(date) => Some(date.to_epoch_days()),
        Err(_) => None,
    }
}

/// Calls `<NaiveDateTime as FromSql>::from_sql`, which does not look at the
/// type, and hands the moment back as its count of microseconds
/// (`timestamp_micros`). The result depends on the bytes alone.
#[verifier::external_body]
pub(crate) fn timestamp_from_sql(raw: &[u8]) -> (reading: Option<i64>)
    ensures
        reading == timestamp_reading(raw@),
{
    match <NaiveDateTime as FromSql>::from_sql(&Type::TIMESTAMP, raw) {
        Ok(moment) => Some(moment.and_utc().timestamp_micros()),
        Err(_) => None,
    }
}

/// Calls `<DateTime<Utc> as FromSql>::from_sql`, which does not look at the
/// type, and hands the moment back as its count of microseconds
/// (`timestamp_micros`). The result depends on the bytes alone.
#[verifier::external_body]
pub(crate) fn timestamptz_from_sql(raw: &[u8]) -> (reading: Option<i64>)
    ensures
        reading == timestamptz_reading(raw@),
{
    match <DateTime<Utc> as FromSql>::from_sql(&Type::TIMESTAMPTZ, raw) {
        Ok(moment) => Some(moment.timestamp_micros()),
        Err(_) => None,
    }
}

/// Calls `NaiveDate::format` on the day with this count
/// (`NaiveDate::from_epoch_days`) and writes the result out. The text depends
/// on the count and the pattern alone. The claim is made for the library's
/// date pattern only.
#[verifier::external_body]
pub(crate) fn date_format(days: i32, pattern: &str) -> (notation: Option<String>)
    requires
        pattern@ == date_pattern(),
    ensures
        optional_text(notation) == date_notation(days, pattern@),
{
    let date = NaiveDate::from_epoch_days(days)?;
    let mut text = String::new();
    match date.format(pattern).write_to(&mut text) {
        Ok(()) => Some(text),
        Err(_) => None,
    }
}

/// Calls `NaiveDateTime::format` on the moment with this count of
/// microseconds (`DateTime::from_timestamp_micros`, without its zone) and
/// writes the result out. The text depends on the count and the pattern alone.
/// The claim is made for the library's timestamp pattern only.
#[verifier::external_body]
pub(crate) fn timestamp_format(micros: i64, pattern: &str) -> (notation: Option<String>)
    requires
        pattern@ == timestamp_pattern(),
    ensures
        optional_text(notation) == timestamp_notation(micros, pattern@),
{
    let moment = DateTime::from_timestamp_micros(micros)?.naive_utc();
    let mut text = String::new();
    match moment.format(pattern).write_to(&mut text) {
        Ok(()) => Some(text),
        Err(_) => None,
    }
}

/// Calls `DateTime::<Utc>::to_rfc3339` on the moment with this count of
/// microseconds (`DateTime::from_timestamp_micros`). The text depends on the
/// count alone.
#[verifier::external_body]
pub(crate) fn timestamptz_to_rfc3339(micros: i64) -> (notation: Option<String>)
    ensures
        optional_text(notation) == rfc3339_notation(micros),
{
    match DateTime::from_timestamp_micros(micros) {
        Some(moment) => Some(moment.to_rfc3339()),
        None => None,
    }
}

} // verus!
