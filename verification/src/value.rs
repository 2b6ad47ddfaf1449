//! Typed value coercion: a database cell, given the engine's reported type
//! name, becomes a uniform JSON-like value, degrading to null rather than
//! failing when no decode attempt succeeds.

use crate::driver;
use crate::driver::bool_at;
use crate::driver::bytes_at;
use crate::driver::date_text_at;
use crate::driver::i16_at;
use crate::driver::i32_at;
use crate::driver::i64_at;
use crate::driver::json_at;
use crate::driver::text_at;
use crate::driver::time_text_at;
use crate::driver::timestamp_text_at;
use crate::driver::timestamptz_text_at;
use crate::driver::type_name_at;
use crate::driver::uuid_text_at;
use crate::text::dec_digits;
use crate::text::str_eq;
use crate::text::u64_to_dec_string;
use vstd::prelude::*;

verus! {

/// A double-precision bit pattern is finite when its exponent field is not
/// all ones (all ones means an infinity or a not-a-number).
pub open spec fn float_bits_finite(bits: u64) -> bool {
    (bits >> 52) & 0x7ff != 0x7ff
}

/// Checks finiteness of a double-precision bit pattern.
pub fn is_finite_bits(bits: u64) -> (r: bool)
    ensures
        r == float_bits_finite(bits),
{
    (bits >> 52) & 0x7ff != 0x7ff
}

/// A coerced cell: the transport-neutral JSON-like value handed to the
/// untyped presentation layer. A floating value is carried as its IEEE 754
/// bit pattern; a structured JSON value is carried through unchanged.
#[derive(Debug)]
pub enum CellValue {
    Null,
    Bool(bool),
    Int(i64),
    Float(u64),
    Str(String),
    Json(serde_json::Value),
}

/// The mathematical model of a coerced cell: the same shape with text as a
/// character sequence.
pub enum CellData {
    Null,
    Bool(bool),
    Int(i64),
    Float(u64),
    Str(Seq<char>),
    Json(serde_json::Value),
}

impl View for CellValue {
    type V = CellData;

    open spec fn view(&self) -> CellData {
        match self {
            CellValue::Null => CellData::Null,
            CellValue::Bool(b) => CellData::Bool(*b),
            CellValue::Int(i) => CellData::Int(*i),
            CellValue::Float(bits) => CellData::Float(*bits),
            CellValue::Str(s) => CellData::Str(s@),
            CellValue::Json(v) => CellData::Json(*v),
        }
    }
}

impl CellValue {
    /// No cell ever holds a non-finite floating value: such a value cannot
    /// be represented as a JSON number and coerces to null instead.
    pub open spec fn wf(&self) -> bool {
        match *self {
            CellValue::Float(bits) => float_bits_finite(bits),
            _ => true,
        }
    }
}

/// The placeholder a raw byte array is rendered as, stating only its length.
pub open spec fn blob_placeholder(n: int) -> Seq<char> {
    "<BLOB "@ + dec_digits(n) + " bytes>"@
}

/// What the integer family's attempt chain produces: the widest successful
/// decode wins, and the value crosses the boundary unchanged.
pub open spec fn int_cell(a8: Option<i64>, a4: Option<i32>, a2: Option<i16>) -> CellValue {
    if a8 is Some {
        CellValue::Int(a8->0)
    } else if a4 is Some {
        CellValue::Int(a4->0 as i64)
    } else if a2 is Some {
        CellValue::Int(a2->0 as i64)
    } else {
        CellValue::Null
    }
}

/// A decoded integer reads the same whichever width succeeded: the widening
/// conversions of the attempt chain preserve the value, so a cell is
/// equivalent however the driver happened to decode it.
pub proof fn lemma_int_cell_width_agnostic(v4: i32, v2: i16)
    ensures
        int_cell(Some(v4 as i64), None, None) == int_cell(None, Some(v4), None),
        int_cell(Some(v2 as i64), None, None) == int_cell(None, None, Some(v2)),
        int_cell(None, Some(v2 as i32), None) == int_cell(None, None, Some(v2)),
{
}

/// Integer family: the widest successful decode wins, and the value crosses
/// the boundary unchanged.
pub fn coerce_int(a8: Option<i64>, a4: Option<i32>, a2: Option<i16>) -> (r: CellValue)
    ensures
        r == int_cell(a8, a4, a2),
        r.wf(),
{
    match a8 {
        Some(v) => CellValue::Int(v),
        None => match a4 {
            Some(v) => CellValue::Int(v as i64),
            None => match a2 {
                Some(v) => CellValue::Int(v as i64),
                None => CellValue::Null,
            },
        },
    }
}

/// What the floating family's attempt chain produces: the first successful
/// decode wins, and a non-finite value becomes null, never an invalid JSON
/// number.
pub open spec fn float_cell(a8: Option<u64>, a4: Option<u64>) -> CellValue {
    if a8 is Some {
        if float_bits_finite(a8->0) {
            CellValue::Float(a8->0)
        } else {
            CellValue::Null
        }
    } else if a4 is Some {
        if float_bits_finite(a4->0) {
            CellValue::Float(a4->0)
        } else {
            CellValue::Null
        }
    } else {
        CellValue::Null
    }
}

/// Whatever the driver decodes, a floating cell never carries a not-a-number
/// or an infinity: either the bit pattern is finite, or the cell is null.
pub proof fn lemma_float_cell_never_non_finite(a8: Option<u64>, a4: Option<u64>)
    ensures
        float_cell(a8, a4).wf(),
        float_cell(a8, a4) matches CellValue::Float(b) ==> float_bits_finite(b),
{
}

/// Floating family: the first successful decode wins, and a non-finite
/// value becomes null, never an invalid JSON number.
pub fn coerce_float(a8: Option<u64>, a4: Option<u64>) -> (r: CellValue)
    ensures
        r == float_cell(a8, a4),
        r.wf(),
{
    match a8 {
        Some(b) => {
            if is_finite_bits(b) {
                CellValue::Float(b)
            } else {
                CellValue::Null
            }
        },
        None => match a4 {
            Some(b) => {
                if is_finite_bits(b) {
                    CellValue::Float(b)
                } else {
                    CellValue::Null
                }
            },
            None => CellValue::Null,
        },
    }
}

/// Boolean family: a direct decode, or null.
pub fn coerce_bool(b: Option<bool>) -> (r: CellValue)
    ensures
        b matches Some(v) ==> r == CellValue::Bool(v),
        b is None ==> r == CellValue::Null,
        r.wf(),
{
    match b {
        Some(v) => CellValue::Bool(v),
        None => CellValue::Null,
    }
}

/// Text-rendered families: a successful decode crosses unchanged, or null.
pub fn coerce_text(t: Option<String>) -> (r: CellValue)
    ensures
        t matches Some(s) ==> r == CellValue::Str(s),
        t is None ==> r == CellValue::Null,
        r.wf(),
{
    match t {
        Some(s) => CellValue::Str(s),
        None => CellValue::Null,
    }
}

/// What a decode-then-string-fallback chain produces: the first successful
/// rendering wins, passed through unchanged, or null.
pub open spec fn first_text_cell(a: Option<String>, b: Option<String>, c: Option<String>) -> CellValue {
    if a is Some {
        CellValue::Str(a->0)
    } else if b is Some {
        CellValue::Str(b->0)
    } else if c is Some {
        CellValue::Str(c->0)
    } else {
        CellValue::Null
    }
}

/// When the decode branches of a chain render the same text, the cell is the
/// same whichever branch succeeded: the chain never alters a rendering.
pub proof fn lemma_first_text_branch_agnostic(s: String, t: String)
    requires
        s@ == t@,
    ensures
        first_text_cell(Some(s), None, None) matches CellValue::Str(u) && u@ == s@,
        first_text_cell(None, Some(t), None) matches CellValue::Str(u) && u@ == s@,
        first_text_cell(None, None, Some(t)) matches CellValue::Str(u) && u@ == s@,
{
}

/// Decode-then-string-fallback families (timestamps, dates, times): the
/// first successful rendering wins, or null.
pub fn coerce_first_text(a: Option<String>, b: Option<String>, c: Option<String>) -> (r: CellValue)
    ensures
        r == first_text_cell(a, b, c),
        r.wf(),
{
    match a {
        Some(s) => CellValue::Str(s),
        None => match b {
            Some(s) => CellValue::Str(s),
            None => match c {
                Some(s) => CellValue::Str(s),
                None => CellValue::Null,
            },
        },
    }
}

/// Binary family: raw bytes never cross the boundary; a decoded byte array
/// is rendered as a human-readable placeholder stating its length.
pub fn coerce_bytes(b: Option<Vec<u8>>) -> (r: CellValue)
    ensures
        b matches Some(v) ==> (r matches CellValue::Str(s) && s@ == blob_placeholder(
            v@.len() as int,
        )),
        b is None ==> r == CellValue::Null,
        r.wf(),
{
    match b {
        Some(v) => {
            let mut s = "<BLOB ".to_owned();
            s.append(u64_to_dec_string(v.len() as u64).as_str());
            s.append(" bytes>");
            CellValue::Str(s)
        },
        None => CellValue::Null,
    }
}

/// JSON family: a decoded structured value passes through unchanged, with no
/// double encoding.
pub fn coerce_json(j: Option<serde_json::Value>) -> (r: CellValue)
    ensures
        j matches Some(v) ==> r == CellValue::Json(v),
        j is None ==> r == CellValue::Null,
        r.wf(),
{
    match j {
        Some(v) => CellValue::Json(v),
        None => CellValue::Null,
    }
}

/// What the generic fallback chain produces for an unrecognized type name:
/// string, then 8-byte integer, then double precision (finite only), then
/// boolean, else null. A non-finite double ends the chain with null; the
/// boolean attempt is not reached.
pub open spec fn fallback_cell(
    s: Option<String>,
    i: Option<i64>,
    f8: Option<u64>,
    b: Option<bool>,
) -> CellValue {
    if s is Some {
        CellValue::Str(s->0)
    } else if i is Some {
        CellValue::Int(i->0)
    } else if f8 is Some {
        if float_bits_finite(f8->0) {
            CellValue::Float(f8->0)
        } else {
            CellValue::Null
        }
    } else if b is Some {
        CellValue::Bool(b->0)
    } else {
        CellValue::Null
    }
}

/// Generic fallback for unrecognized type names: string, then 8-byte
/// integer, then double precision (finite only), then boolean, else null.
pub fn coerce_fallback(
    s: Option<String>,
    i: Option<i64>,
    f8: Option<u64>,
    b: Option<bool>,
) -> (r: CellValue)
    ensures
        r == fallback_cell(s, i, f8, b),
        r.wf(),
{
    match s {
        Some(v) => CellValue::Str(v),
        None => match i {
            Some(v) => CellValue::Int(v),
            None => match f8 {
                Some(v) => {
                    if is_finite_bits(v) {
                        CellValue::Float(v)
                    } else {
                        CellValue::Null
                    }
                },
                None => coerce_bool(b),
            },
        },
    }
}

/// The reported type names of the integer family.
pub open spec fn integer_type_name(n: Seq<char>) -> bool {
    n == "INT2"@ || n == "INT4"@ || n == "INT8"@ || n == "SERIAL"@ || n == "BIGSERIAL"@
}

/// The reported type names of the floating/numeric family.
pub open spec fn float_type_name(n: Seq<char>) -> bool {
    n == "FLOAT4"@ || n == "FLOAT8"@ || n == "NUMERIC"@
}

/// The reported type names of the text family.
pub open spec fn text_type_name(n: Seq<char>) -> bool {
    n == "TEXT"@ || n == "VARCHAR"@ || n == "CHAR"@ || n == "BPCHAR"@ || n == "NAME"@
}

/// The reported type names of the JSON family.
pub open spec fn json_type_name(n: Seq<char>) -> bool {
    n == "JSON"@ || n == "JSONB"@
}

/// The reported type names of the timestamp family.
pub open spec fn timestamp_type_name(n: Seq<char>) -> bool {
    n == "TIMESTAMP"@ || n == "TIMESTAMPTZ"@
}

/// The reported type names of the time-of-day family.
pub open spec fn time_type_name(n: Seq<char>) -> bool {
    n == "TIME"@ || n == "TIMETZ"@
}

/// A decoded text value passes through unchanged, or null.
pub open spec fn text_data(t: Option<Seq<char>>) -> CellData {
    match t {
        Some(s) => CellData::Str(s),
        None => CellData::Null,
    }
}

/// A decoded boolean passes through unchanged, or null.
pub open spec fn bool_data(b: Option<bool>) -> CellData {
    match b {
        Some(v) => CellData::Bool(v),
        None => CellData::Null,
    }
}

/// A decoded byte array becomes the length placeholder, or null.
pub open spec fn bytes_data(b: Option<Seq<u8>>) -> CellData {
    match b {
        Some(v) => CellData::Str(blob_placeholder(v.len() as int)),
        None => CellData::Null,
    }
}

/// A decoded JSON value passes through unchanged, or null.
pub open spec fn json_data(j: Option<serde_json::Value>) -> CellData {
    match j {
        Some(v) => CellData::Json(v),
        None => CellData::Null,
    }
}

/// A decode-then-string-fallback chain at the data level: the first
/// successful rendering wins, or null.
pub open spec fn first_text_data(
    a: Option<Seq<char>>,
    b: Option<Seq<char>>,
    c: Option<Seq<char>>,
) -> CellData {
    if a is Some {
        CellData::Str(a->0)
    } else if b is Some {
        CellData::Str(b->0)
    } else if c is Some {
        CellData::Str(c->0)
    } else {
        CellData::Null
    }
}

/// The generic fallback chain at the data level: string, then 8-byte
/// integer, then double precision (finite only), then boolean, else null.
pub open spec fn fallback_data(
    s: Option<Seq<char>>,
    i: Option<i64>,
    f8: Option<u64>,
    b: Option<bool>,
) -> CellData {
    if s is Some {
        CellData::Str(s->0)
    } else if i is Some {
        CellData::Int(i->0)
    } else if f8 is Some {
        if float_bits_finite(f8->0) {
            CellData::Float(f8->0)
        } else {
            CellData::Null
        }
    } else if b is Some {
        CellData::Bool(b->0)
    } else {
        CellData::Null
    }
}

/// The whole coercion table of one cell: the reported type name selects the
/// decode family, each family consumes the named decode outcomes of the row
/// in its fixed priority order, and an unrecognized or unreadable type name
/// falls back to the generic chain. The floating decode outcomes are the
/// caller's, taken as arguments.
pub open spec fn cell_of_row(
    row: sqlx::postgres::PgRow,
    i: int,
    f8: Option<u64>,
    f4: Option<u64>,
) -> CellData {
    match type_name_at(row, i) {
        Some(n) => {
            if integer_type_name(n) {
                int_cell(i64_at(row, i), i32_at(row, i), i16_at(row, i))@
            } else if float_type_name(n) {
                float_cell(f8, f4)@
            } else if n == "BOOL"@ {
                bool_data(bool_at(row, i))
            } else if text_type_name(n) {
                text_data(text_at(row, i))
            } else if n == "BYTEA"@ {
                bytes_data(bytes_at(row, i))
            } else if json_type_name(n) {
                json_data(json_at(row, i))
            } else if n == "UUID"@ {
                text_data(uuid_text_at(row, i))
            } else if timestamp_type_name(n) {
                first_text_data(
                    timestamp_text_at(row, i),
                    timestamptz_text_at(row, i),
                    text_at(row, i),
                )
            } else if n == "DATE"@ {
                first_text_data(date_text_at(row, i), text_at(row, i), None)
            } else if time_type_name(n) {
                first_text_data(time_text_at(row, i), text_at(row, i), None)
            } else {
                fallback_data(text_at(row, i), i64_at(row, i), f8, bool_at(row, i))
            }
        },
        None => fallback_data(text_at(row, i), i64_at(row, i), f8, bool_at(row, i)),
    }
}

/// Coerces one cell of a fetched row by the engine's reported type name.
/// The floating-point decode attempts cannot stand in verified code, so
/// their outcomes (widened IEEE 754 bit patterns) are taken as arguments;
/// every other family is decoded here through the driver wrappers. A cell
/// whose type name cannot be read is treated like one of unrecognized type.
/// Whatever the driver hands back, the result is well formed: a non-finite
/// floating value degrades to null.
pub fn coerce_value(
    row: &sqlx::postgres::PgRow,
    index: usize,
    f8_bits: Option<u64>,
    f4_bits: Option<u64>,
) -> (r: CellValue)
    ensures
        r@ == cell_of_row(*row, index as int, f8_bits, f4_bits),
        r.wf(),
{
    let reported = driver::row_type_name(row, index);
    match reported {
        Some(name) => {
            let n = name.as_str();
            if str_eq(n, "INT2") || str_eq(n, "INT4") || str_eq(n, "INT8") || str_eq(n, "SERIAL")
                || str_eq(n, "BIGSERIAL") {
                coerce_int(
                    driver::cell_i64(row, index),
                    driver::cell_i32(row, index),
                    driver::cell_i16(row, index),
                )
            } else if str_eq(n, "FLOAT4") || str_eq(n, "FLOAT8") || str_eq(n, "NUMERIC") {
                coerce_float(f8_bits, f4_bits)
            } else if str_eq(n, "BOOL") {
                coerce_bool(driver::cell_bool(row, index))
            } else if str_eq(n, "TEXT") || str_eq(n, "VARCHAR") || str_eq(n, "CHAR") || str_eq(
                n,
                "BPCHAR",
            ) || str_eq(n, "NAME") {
                coerce_text(driver::cell_text(row, index))
            } else if str_eq(n, "BYTEA") {
                coerce_bytes(driver::cell_bytes(row, index))
            } else if str_eq(n, "JSON") || str_eq(n, "JSONB") {
                coerce_json(driver::cell_json(row, index))
            } else if str_eq(n, "UUID") {
                coerce_text(driver::cell_uuid_text(row, index))
            } else if str_eq(n, "TIMESTAMP") || str_eq(n, "TIMESTAMPTZ") {
                coerce_first_text(
                    driver::cell_timestamp_text(row, index),
                    driver::cell_timestamptz_text(row, index),
                    driver::cell_text(row, index),
                )
            } else if str_eq(n, "DATE") {
                coerce_first_text(driver::cell_date_text(row, index), driver::cell_text(row, index), None)
            } else if str_eq(n, "TIME") || str_eq(n, "TIMETZ") {
                coerce_first_text(driver::cell_time_text(row, index), driver::cell_text(row, index), None)
            } else {
                coerce_fallback(
                    driver::cell_text(row, index),
                    driver::cell_i64(row, index),
                    f8_bits,
                    driver::cell_bool(row, index),
                )
            }
        },
        None => coerce_fallback(
            driver::cell_text(row, index),
            driver::cell_i64(row, index),
            f8_bits,
            driver::cell_bool(row, index),
        ),
    }
}

} // verus!
