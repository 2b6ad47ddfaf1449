//! Trusted view of the database driver and of the JSON value type.
//!
//! Everything here either declares an outside type so that it can stand in
//! signatures, or wraps one call into an outside crate behind a contract.
//! The driver hands back opaque rows; a fetched row is an immutable record
//! of cells, so what each accessor returns is a function of the row and the
//! index alone. Those functions are given names below (`text_at`, `i64_at`,
//! ...), each wrapper's contract ties its result to its name, and the
//! verified coercion and parsing logic is then exact over the names.

use vstd::prelude::*;

use sqlx::Column;
use sqlx::Row;
use sqlx::TypeInfo;

verus! {

/// Declares a fetched Postgres row; its contents are read only through the
/// wrappers below.
#[verifier::external_type_specification]
#[verifier::external_body]
pub struct ExPgRow(sqlx::postgres::PgRow);

/// Declares serde_json's value type; such a value is carried through the
/// coercion layer unchanged, never inspected.
#[verifier::external_type_specification]
#[verifier::external_body]
pub struct ExJsonValue(serde_json::Value);

/// The view of an optional owned string.
pub open spec fn opt_str_view(o: Option<String>) -> Option<Seq<char>> {
    match o {
        Some(s) => Some(s@),
        None => None,
    }
}

/// The view of an optional byte array.
pub open spec fn opt_bytes_view(o: Option<Vec<u8>>) -> Option<Seq<u8>> {
    match o {
        Some(b) => Some(b@),
        None => None,
    }
}

/// The names of the row's columns, in declared order.
pub uninterp spec fn column_names_of(row: sqlx::postgres::PgRow) -> Seq<Seq<char>>;

/// The database's reported type name for the column, if the index is in
/// bounds.
pub uninterp spec fn type_name_at(row: sqlx::postgres::PgRow, i: int) -> Option<Seq<char>>;

/// What the 8-byte signed integer decode of the cell yields.
pub uninterp spec fn i64_at(row: sqlx::postgres::PgRow, i: int) -> Option<i64>;

/// What the 4-byte signed integer decode of the cell yields.
pub uninterp spec fn i32_at(row: sqlx::postgres::PgRow, i: int) -> Option<i32>;

/// What the 2-byte signed integer decode of the cell yields.
pub uninterp spec fn i16_at(row: sqlx::postgres::PgRow, i: int) -> Option<i16>;

/// What the boolean decode of the cell yields.
pub uninterp spec fn bool_at(row: sqlx::postgres::PgRow, i: int) -> Option<bool>;

/// What the text decode of the cell yields.
pub uninterp spec fn text_at(row: sqlx::postgres::PgRow, i: int) -> Option<Seq<char>>;

/// What the raw byte-array decode of the cell yields.
pub uninterp spec fn bytes_at(row: sqlx::postgres::PgRow, i: int) -> Option<Seq<u8>>;

/// What the JSON decode of the cell yields: an opaque structured value.
pub uninterp spec fn json_at(row: sqlx::postgres::PgRow, i: int) -> Option<serde_json::Value>;

/// What the UUID decode of the cell yields, rendered in canonical form.
pub uninterp spec fn uuid_text_at(row: sqlx::postgres::PgRow, i: int) -> Option<Seq<char>>;

/// What the timezone-naive timestamp decode yields, rendered as text.
pub uninterp spec fn timestamp_text_at(row: sqlx::postgres::PgRow, i: int) -> Option<Seq<char>>;

/// What the UTC-zoned timestamp decode yields, rendered as text.
pub uninterp spec fn timestamptz_text_at(row: sqlx::postgres::PgRow, i: int) -> Option<Seq<char>>;

/// What the date decode yields, rendered as text.
pub uninterp spec fn date_text_at(row: sqlx::postgres::PgRow, i: int) -> Option<Seq<char>>;

/// What the time-of-day decode yields, rendered as text.
pub uninterp spec fn time_text_at(row: sqlx::postgres::PgRow, i: int) -> Option<Seq<char>>;

/// What the text decode of the column with the given name yields.
pub uninterp spec fn text_by_name_at(row: sqlx::postgres::PgRow, name: Seq<char>) -> Option<
    Seq<char>,
>;

/// What the boolean decode of the column with the given name yields.
pub uninterp spec fn bool_by_name_at(row: sqlx::postgres::PgRow, name: Seq<char>) -> Option<bool>;

/// Relies on sqlx's Row::columns and Column::name: the name of each column
/// of the row, in declared order.
#[verifier::external_body]
pub(crate) fn row_column_names(row: &sqlx::postgres::PgRow) -> (r: Vec<String>)
    ensures
        r@.len() == column_names_of(*row).len(),
        forall|i: int| 0 <= i < r@.len() ==> r@[i]@ == column_names_of(*row)[i],
{
    row.columns().iter().map(|c| c.name().to_string()).collect()
}

/// Relies on sqlx's Row::columns: how many columns the row has.
#[verifier::external_body]
pub(crate) fn row_column_count(row: &sqlx::postgres::PgRow) -> (r: usize)
    ensures
        r == column_names_of(*row).len(),
{
    row.columns().len()
}

/// Relies on sqlx's Row::try_column, Column::type_info and TypeInfo::name:
/// the database's reported type name for the column, if the index is in
/// bounds.
#[verifier::external_body]
pub(crate) fn row_type_name(row: &sqlx::postgres::PgRow, index: usize) -> (r: Option<String>)
    ensures
        opt_str_view(r) == type_name_at(*row, index as int),
{
    row.try_column(index).ok().map(|c| c.type_info().name().to_string())
}

/// Relies on sqlx's Row::try_get for an 8-byte signed integer.
#[verifier::external_body]
pub(crate) fn cell_i64(row: &sqlx::postgres::PgRow, index: usize) -> (r: Option<i64>)
    ensures
        r == i64_at(*row, index as int),
{
    row.try_get::<i64, _>(index).ok()
}

/// Relies on sqlx's Row::try_get for a 4-byte signed integer.
#[verifier::external_body]
pub(crate) fn cell_i32(row: &sqlx::postgres::PgRow, index: usize) -> (r: Option<i32>)
    ensures
        r == i32_at(*row, index as int),
{
    row.try_get::<i32, _>(index).ok()
}

/// Relies on sqlx's Row::try_get for a 2-byte signed integer.
#[verifier::external_body]
pub(crate) fn cell_i16(row: &sqlx::postgres::PgRow, index: usize) -> (r: Option<i16>)
    ensures
        r == i16_at(*row, index as int),
{
    row.try_get::<i16, _>(index).ok()
}

/// Relies on sqlx's Row::try_get for a boolean.
#[verifier::external_body]
pub(crate) fn cell_bool(row: &sqlx::postgres::PgRow, index: usize) -> (r: Option<bool>)
    ensures
        r == bool_at(*row, index as int),
{
    row.try_get::<bool, _>(index).ok()
}

/// Relies on sqlx's Row::try_get for a text value.
#[verifier::external_body]
pub(crate) fn cell_text(row: &sqlx::postgres::PgRow, index: usize) -> (r: Option<String>)
    ensures
        opt_str_view(r) == text_at(*row, index as int),
{
    row.try_get::<String, _>(index).ok()
}

/// Relies on sqlx's Row::try_get for a raw byte array.
#[verifier::external_body]
pub(crate) fn cell_bytes(row: &sqlx::postgres::PgRow, index: usize) -> (r: Option<Vec<u8>>)
    ensures
        opt_bytes_view(r) == bytes_at(*row, index as int),
{
    row.try_get::<Vec<u8>, _>(index).ok()
}

/// Relies on sqlx's Row::try_get for a JSON or JSONB value, decoded through
/// serde_json and passed through unchanged.
#[verifier::external_body]
pub(crate) fn cell_json(row: &sqlx::postgres::PgRow, index: usize) -> (r: Option<serde_json::Value>)
    ensures
        r == json_at(*row, index as int),
{
    row.try_get::<serde_json::Value, _>(index).ok()
}

/// Relies on sqlx's Row::try_get for a UUID, rendered through uuid's Display
/// impl as the canonical hyphenated form, which is 36 characters long.
#[verifier::external_body]
pub(crate) fn cell_uuid_text(row: &sqlx::postgres::PgRow, index: usize) -> (r: Option<String>)
    ensures
        opt_str_view(r) == uuid_text_at(*row, index as int),
        r matches Some(s) ==> s@.len() == 36,
{
    row.try_get::<uuid::Uuid, _>(index).ok().map(|v| v.to_string())
}

/// Relies on sqlx's Row::try_get for a timezone-naive timestamp, rendered
/// through chrono's default Display impl.
#[verifier::external_body]
pub(crate) fn cell_timestamp_text(row: &sqlx::postgres::PgRow, index: usize) -> (r: Option<String>)
    ensures
        opt_str_view(r) == timestamp_text_at(*row, index as int),
{
    row.try_get::<chrono::NaiveDateTime, _>(index).ok().map(|v| v.to_string())
}

/// Relies on sqlx's Row::try_get for a UTC-zoned timestamp, rendered through
/// chrono's default Display impl.
#[verifier::external_body]
pub(crate) fn cell_timestamptz_text(row: &sqlx::postgres::PgRow, index: usize) -> (r: Option<
    String,
>)
    ensures
        opt_str_view(r) == timestamptz_text_at(*row, index as int),
{
    row.try_get::<chrono::DateTime<chrono::Utc>, _>(index).ok().map(|v| v.to_string())
}

/// Relies on sqlx's Row::try_get for a date, rendered through chrono's
/// default Display impl.
#[verifier::external_body]
pub(crate) fn cell_date_text(row: &sqlx::postgres::PgRow, index: usize) -> (r: Option<String>)
    ensures
        opt_str_view(r) == date_text_at(*row, index as int),
{
    row.try_get::<chrono::NaiveDate, _>(index).ok().map(|v| v.to_string())
}

/// Relies on sqlx's Row::try_get for a time of day, rendered through
/// chrono's default Display impl.
#[verifier::external_body]
pub(crate) fn cell_time_text(row: &sqlx::postgres::PgRow, index: usize) -> (r: Option<String>)
    ensures
        opt_str_view(r) == time_text_at(*row, index as int),
{
    row.try_get::<chrono::NaiveTime, _>(index).ok().map(|v| v.to_string())
}

/// Relies on sqlx's Row::try_get with a column name: a text value looked up
/// by name rather than by position.
#[verifier::external_body]
pub(crate) fn col_text_by_name(row: &sqlx::postgres::PgRow, name: &str) -> (r: Option<String>)
    ensures
        opt_str_view(r) == text_by_name_at(*row, name@),
{
    row.try_get::<String, _>(name).ok()
}

/// Relies on sqlx's Row::try_get with a column name: a text value looked up
/// by name, or the driver's error rendered as text.
#[verifier::external_body]
pub(crate) fn col_text_result(row: &sqlx::postgres::PgRow, name: &str) -> (r: Result<
    String,
    String,
>)
    ensures
        r is Ok <==> text_by_name_at(*row, name@) is Some,
        r matches Ok(s) ==> text_by_name_at(*row, name@) == Some(s@),
{
    row.try_get::<String, _>(name).map_err(|e| e.to_string())
}

/// Relies on sqlx's Row::try_get with a column name: a boolean looked up by
/// name rather than by position.
#[verifier::external_body]
pub(crate) fn col_bool_by_name(row: &sqlx::postgres::PgRow, name: &str) -> (r: Option<bool>)
    ensures
        r == bool_by_name_at(*row, name@),
{
    row.try_get::<bool, _>(name).ok()
}

} // verus!
