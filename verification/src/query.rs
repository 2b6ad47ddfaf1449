//! Query execution: classification of a SQL statement by its leading
//! keyword, and assembly of the uniform result a caller receives.

use crate::connection::Session;
use crate::text::is_space;
use crate::text::is_space_char;
use crate::driver;
use crate::driver::column_names_of;
use crate::value::CellValue;
use crate::value::cell_of_row;
use crate::value::coerce_value;
use vstd::prelude::*;

verus! {

/// The statement with its leading whitespace removed. Trailing whitespace
/// never affects which keyword the statement starts with.
pub open spec fn trimmed_start(s: Seq<char>) -> Seq<char>
    decreases s.len(),
{
    if s.len() > 0 && is_space(s[0]) {
        trimmed_start(s.drop_first())
    } else {
        s
    }
}

/// A character matches an ASCII uppercase letter case-insensitively.
pub open spec fn char_matches_upper(c: char, upper: char) -> bool {
    c == upper || c as int == upper as int + 32
}

/// The sequence starts, case-insensitively, with the given ASCII keyword.
pub open spec fn starts_with_keyword(s: Seq<char>, kw: Seq<char>) -> bool {
    kw.len() <= s.len() && forall|i: int| 0 <= i < kw.len() ==> char_matches_upper(s[i], kw[i])
}

/// The classification heuristic: a statement is projecting (row-returning)
/// exactly when its trimmed, case-normalized text starts with SELECT, WITH,
/// SHOW or EXPLAIN. Every other statement is effecting. A statement that
/// returns rows without such a leading keyword is deliberately misfiled as
/// effecting; this is a known limitation of the heuristic, not a defect.
pub open spec fn is_projecting_sql(s: Seq<char>) -> bool {
    let t = trimmed_start(s);
    ||| starts_with_keyword(t, "SELECT"@)
    ||| starts_with_keyword(t, "WITH"@)
    ||| starts_with_keyword(t, "SHOW"@)
    ||| starts_with_keyword(t, "EXPLAIN"@)
}

/// How a statement will be executed: fetching rows, or reporting only an
/// affected-row count.
#[derive(Clone, Copy, PartialEq, Eq, Structural, Debug)]
pub enum StatementKind {
    Projecting,
    Effecting,
}

/// Skipping a run of whitespace characters is exactly what trimming does.
proof fn lemma_trim_skip(s: Seq<char>, k: int)
    requires
        0 <= k <= s.len(),
        forall|i: int| 0 <= i < k ==> is_space(s[i]),
        k == s.len() || !is_space(s[k]),
    ensures
        trimmed_start(s) == s.subrange(k, s.len() as int),
    decreases k,
{
    if k == 0 {
        assert(s.subrange(0, s.len() as int) =~= s);
    } else {
        assert(is_space(s[0]));
        lemma_trim_skip(s.drop_first(), k - 1);
        assert(s.drop_first().subrange(k - 1, s.drop_first().len() as int) =~= s.subrange(
            k,
            s.len() as int,
        ));
    }
}

/// Tests, case-insensitively, whether the statement continues with the
/// keyword at the given position.
fn matches_keyword_from(sql: &str, start: usize, kw: &str) -> (r: bool)
    requires
        start <= sql@.len(),
    ensures
        r == starts_with_keyword(sql@.subrange(start as int, sql@.len() as int), kw@),
{
    let n = sql.unicode_len();
    let m = kw.unicode_len();
    if m > n - start {
        return false;
    }
    let ghost tail = sql@.subrange(start as int, sql@.len() as int);
    let mut j: usize = 0;
    while j < m
        invariant
            0 <= j <= m,
            m <= n - start,
            start <= n == sql@.len(),
            m == kw@.len(),
            tail == sql@.subrange(start as int, sql@.len() as int),
            forall|i: int| 0 <= i < j ==> char_matches_upper(tail[i], kw@[i]),
        decreases m - j,
    {
        let c = sql.get_char(start + j);
        let k = kw.get_char(j);
        assert(c == tail[j as int]);
        if !(c == k || (k as u32) + 32 == (c as u32)) {
            return false;
        }
        j += 1;
    }
    true
}

/// Classifies a statement by its trimmed, case-normalized leading keyword.
pub fn classify_statement(sql: &str) -> (k: StatementKind)
    ensures
        k == StatementKind::Projecting <==> is_projecting_sql(sql@),
{
    let n = sql.unicode_len();
    let mut start: usize = 0;
    while start < n && is_space_char(sql.get_char(start))
        invariant
            0 <= start <= n,
            n == sql@.len(),
            forall|i: int| 0 <= i < start ==> is_space(sql@[i]),
        decreases n - start,
    {
        start += 1;
    }
    proof {
        lemma_trim_skip(sql@, start as int);
    }
    if matches_keyword_from(sql, start, "SELECT") || matches_keyword_from(sql, start, "WITH")
        || matches_keyword_from(sql, start, "SHOW") || matches_keyword_from(sql, start, "EXPLAIN") {
        StatementKind::Projecting
    } else {
        StatementKind::Effecting
    }
}

/// The uniform result of one statement: column names, coerced rows, elapsed
/// execution time, and an affected-row count present only for effecting
/// statements.
#[derive(Debug)]
pub struct QueryResult {
    pub columns: Vec<String>,
    pub rows: Vec<Vec<CellValue>>,
    pub execution_time_ms: u64,
    pub rows_affected: Option<u64>,
}

impl QueryResult {
    /// The shape of a projecting statement's result: no affected-row count,
    /// rows of well-formed cells aligned with the column list.
    pub open spec fn projecting_shape(&self) -> bool {
        &&& self.rows_affected is None
        &&& forall|j: int, k: int|
            0 <= j < self.rows@.len() && 0 <= k < self.rows@[j]@.len() ==> self.rows@[j]@[k].wf()
    }

    /// The shape of an effecting statement's result: no columns, no rows,
    /// and an affected-row count.
    pub open spec fn effecting_shape(&self) -> bool {
        &&& self.columns@.len() == 0
        &&& self.rows@.len() == 0
        &&& self.rows_affected is Some
    }
}

/// The shape a result must have for the statement that produced it: a
/// projecting statement's result never carries an affected-row count; any
/// other statement's result has empty columns and rows and carries one.
pub open spec fn result_matches_statement(sql: Seq<char>, r: QueryResult) -> bool {
    if is_projecting_sql(sql) {
        r.rows_affected is None
    } else {
        r.effecting_shape()
    }
}

/// Classification alone fixes the shape of a statement's result: assembling
/// a projecting statement's outcome with `build_projecting_result` and any
/// other statement's outcome with `build_effecting_result` always yields a
/// result of the matching shape.
pub proof fn lemma_result_shape(sql: Seq<char>, r: QueryResult)
    requires
        is_projecting_sql(sql) ==> r.projecting_shape(),
        !is_projecting_sql(sql) ==> r.effecting_shape(),
    ensures
        result_matches_statement(sql, r),
{
}

/// The float decode outcome recorded for one cell position, if the caller
/// attempted one: the widened IEEE 754 bit pattern at the matching
/// position, or nothing where the matrix has no entry.
pub open spec fn bits_lookup(m: Seq<Vec<Option<u64>>>, j: int, k: int) -> Option<u64> {
    if 0 <= j < m.len() && 0 <= k < m[j]@.len() {
        m[j]@[k]
    } else {
        None
    }
}

/// Reads the float decode outcome recorded for one cell position.
fn bits_at(m: &Vec<Vec<Option<u64>>>, j: usize, k: usize) -> (r: Option<u64>)
    ensures
        r == bits_lookup(m@, j as int, k as int),
{
    if j < m.len() {
        let row = &m[j];
        if k < row.len() {
            row[k]
        } else {
            None
        }
    } else {
        None
    }
}

/// Assembles the result of a projecting statement from the fetched rows.
/// With no rows there is no column metadata, so columns and rows are empty;
/// otherwise the column names come from the first row and every cell is
/// coerced. The float decode outcomes for each cell position are taken as
/// arguments, since floating point cannot stand in verified code.
pub fn build_projecting_result(
    rows: &Vec<sqlx::postgres::PgRow>,
    f8: &Vec<Vec<Option<u64>>>,
    f4: &Vec<Vec<Option<u64>>>,
    execution_time_ms: u64,
) -> (r: QueryResult)
    ensures
        r.projecting_shape(),
        r.execution_time_ms == execution_time_ms,
        r.rows@.len() == rows@.len(),
        rows@.len() == 0 ==> r.columns@.len() == 0,
        rows@.len() > 0 ==> r.columns@.len() == column_names_of(rows@[0]).len(),
        rows@.len() > 0 ==> forall|i: int|
            0 <= i < r.columns@.len() ==> r.columns@[i]@ == column_names_of(rows@[0])[i],
        forall|j: int|
            0 <= j < rows@.len() ==> #[trigger] r.rows@[j]@.len() == column_names_of(
                rows@[j],
            ).len(),
        forall|j: int, k: int|
            0 <= j < rows@.len() && 0 <= k < r.rows@[j]@.len() ==> #[trigger] r.rows@[j]@[k]@
                == cell_of_row(rows@[j], k, bits_lookup(f8@, j, k), bits_lookup(f4@, j, k)),
{
    if rows.len() == 0 {
        return QueryResult {
            columns: Vec::new(),
            rows: Vec::new(),
            execution_time_ms,
            rows_affected: None,
        };
    }
    let columns = driver::row_column_names(&rows[0]);
    let mut out_rows: Vec<Vec<CellValue>> = Vec::new();
    let mut j: usize = 0;
    while j < rows.len()
        invariant
            0 <= j <= rows@.len(),
            out_rows@.len() == j,
            forall|a: int|
                0 <= a < j ==> #[trigger] out_rows@[a]@.len() == column_names_of(rows@[a]).len(),
            forall|a: int, b: int|
                0 <= a < j && 0 <= b < out_rows@[a]@.len() ==> #[trigger] out_rows@[a]@[b]@
                    == cell_of_row(rows@[a], b, bits_lookup(f8@, a, b), bits_lookup(f4@, a, b)),
            forall|a: int, b: int|
                0 <= a < out_rows@.len() && 0 <= b < out_rows@[a]@.len() ==> out_rows@[a]@[b].wf(),
        decreases rows@.len() - j,
    {
        let row = &rows[j];
        let n = driver::row_column_count(row);
        let mut cells: Vec<CellValue> = Vec::new();
        let mut k: usize = 0;
        while k < n
            invariant
                0 <= k <= n,
                j < rows@.len(),
                row == &rows@[j as int],
                n == column_names_of(rows@[j as int]).len(),
                cells@.len() == k,
                forall|b: int|
                    0 <= b < k ==> #[trigger] cells@[b]@ == cell_of_row(
                        rows@[j as int],
                        b,
                        bits_lookup(f8@, j as int, b),
                        bits_lookup(f4@, j as int, b),
                    ),
                forall|b: int| 0 <= b < cells@.len() ==> cells@[b].wf(),
            decreases n - k,
        {
            cells.push(coerce_value(row, k, bits_at(f8, j, k), bits_at(f4, j, k)));
            k += 1;
        }
        out_rows.push(cells);
        j += 1;
    }
    QueryResult { columns, rows: out_rows, execution_time_ms, rows_affected: None }
}

/// Assembles the result of an effecting statement: only the affected-row
/// count, with empty columns and rows.
pub fn build_effecting_result(rows_affected: u64, execution_time_ms: u64) -> (r: QueryResult)
    ensures
        r.effecting_shape(),
        r.rows_affected == Some(rows_affected),
        r.execution_time_ms == execution_time_ms,
{
    QueryResult {
        columns: Vec::new(),
        rows: Vec::new(),
        execution_time_ms,
        rows_affected: Some(rows_affected),
    }
}

/// The check every execution request passes first: with no live connection
/// it fails with the not-connected error before any statement could reach
/// the network; with one, it reports how the statement will be executed.
pub fn plan_execution<H>(session: &Session<H>, sql: &str) -> (r: Result<StatementKind, String>)
    requires
        session.wf(),
    ensures
        r is Ok <==> session.is_connected(),
        !session.is_connected() ==> (r matches Err(m) && m@ == "Not connected to a database"@),
        r matches Ok(k) ==> (k == StatementKind::Projecting <==> is_projecting_sql(sql@)),
{
    match session.require_handle() {
        Ok(_) => Ok(classify_statement(sql)),
        Err(e) => Err(e),
    }
}

} // verus!
