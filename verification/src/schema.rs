//! Schema introspection: the catalog queries that enumerate relations and
//! their columns, and the verified parsing of their result rows.

use crate::driver;
use crate::driver::bool_by_name_at;
use crate::driver::text_by_name_at;
use crate::text::str_eq;
use vstd::prelude::*;

verus! {

/// One column of a relation: name, the database's reported type name (a
/// free-form string, not a closed enumeration), nullability, and
/// primary-key membership.
#[derive(Debug)]
pub struct ColumnSchema {
    pub name: String,
    pub data_type: String,
    pub nullable: bool,
    pub is_primary_key: bool,
}

/// One relation: its name and its columns in declared ordinal order.
#[derive(Debug)]
pub struct TableSchema {
    pub name: String,
    pub columns: Vec<ColumnSchema>,
}

/// The whole schema: base tables and views, each ordered alphabetically by
/// name by the catalog query that produced them.
#[derive(Debug)]
pub struct DatabaseSchema {
    pub tables: Vec<TableSchema>,
    pub views: Vec<TableSchema>,
}

/// The catalog query that lists relations of one kind ('BASE TABLE' or
/// 'VIEW', bound as $1) in the public schema, alphabetically by name.
pub open spec fn relations_query_text() -> Seq<char> {
    "\n        SELECT table_name\n        FROM information_schema.tables\n        WHERE table_schema = 'public'\n        AND table_type = $1\n        ORDER BY table_name\n    "@
}

/// The relation-listing catalog query, for the caller to run with the
/// relation kind bound as $1.
pub fn relations_query() -> (r: &'static str)
    ensures
        r@ == relations_query_text(),
{
    "\n        SELECT table_name\n        FROM information_schema.tables\n        WHERE table_schema = 'public'\n        AND table_type = $1\n        ORDER BY table_name\n    "
}

/// The catalog query that lists the columns of one relation (bound as $1)
/// in ordinal order, left-joined against primary-key constraint membership:
/// a column is primary-key iff a matching constraint row exists.
pub open spec fn columns_query_text() -> Seq<char> {
    "\n        SELECT\n            c.column_name,\n            c.data_type,\n            c.is_nullable,\n            CASE WHEN pk.column_name IS NOT NULL THEN true ELSE false END as is_primary_key\n        FROM information_schema.columns c\n        LEFT JOIN (\n            SELECT kcu.column_name\n            FROM information_schema.table_constraints tc\n            JOIN information_schema.key_column_usage kcu\n                ON tc.constraint_name = kcu.constraint_name\n                AND tc.table_schema = kcu.table_schema\n            WHERE tc.constraint_type = 'PRIMARY KEY'\n            AND tc.table_name = $1\n            AND tc.table_schema = 'public'\n        ) pk ON c.column_name = pk.column_name\n        WHERE c.table_name = $1\n        AND c.table_schema = 'public'\n        ORDER BY c.ordinal_position\n    "@
}

/// The column-listing catalog query, for the caller to run with the
/// relation name bound as $1.
pub fn columns_query() -> (r: &'static str)
    ensures
        r@ == columns_query_text(),
{
    "\n        SELECT\n            c.column_name,\n            c.data_type,\n            c.is_nullable,\n            CASE WHEN pk.column_name IS NOT NULL THEN true ELSE false END as is_primary_key\n        FROM information_schema.columns c\n        LEFT JOIN (\n            SELECT kcu.column_name\n            FROM information_schema.table_constraints tc\n            JOIN information_schema.key_column_usage kcu\n                ON tc.constraint_name = kcu.constraint_name\n                AND tc.table_schema = kcu.table_schema\n            WHERE tc.constraint_type = 'PRIMARY KEY'\n            AND tc.table_name = $1\n            AND tc.table_schema = 'public'\n        ) pk ON c.column_name = pk.column_name\n        WHERE c.table_name = $1\n        AND c.table_schema = 'public'\n        ORDER BY c.ordinal_position\n    "
}

/// Builds one column description from the fetched fields: a missing name or
/// type degrades to the empty string, a column is nullable exactly when the
/// catalog reported the text YES, and it is primary-key exactly when the
/// constraint join reported true.
pub fn make_column_schema(
    name: Option<String>,
    data_type: Option<String>,
    is_nullable: Option<String>,
    is_pk: Option<bool>,
) -> (r: ColumnSchema)
    ensures
        name matches Some(s) ==> r.name@ == s@,
        name is None ==> r.name@ == Seq::<char>::empty(),
        data_type matches Some(s) ==> r.data_type@ == s@,
        data_type is None ==> r.data_type@ == Seq::<char>::empty(),
        r.nullable == (is_nullable is Some && is_nullable->0@ == "YES"@),
        r.is_primary_key == (is_pk is Some && is_pk->0),
{
    let nullable = match &is_nullable {
        Some(s) => str_eq(s.as_str(), "YES"),
        None => false,
    };
    ColumnSchema {
        name: match name {
            Some(s) => s,
            None => String::new(),
        },
        data_type: match data_type {
            Some(s) => s,
            None => String::new(),
        },
        nullable,
        is_primary_key: match is_pk {
            Some(b) => b,
            None => false,
        },
    }
}

/// The text of one catalog field, with a missing value degraded to the
/// empty string.
pub open spec fn column_text_or_empty(row: sqlx::postgres::PgRow, key: Seq<char>) -> Seq<char> {
    match text_by_name_at(row, key) {
        Some(t) => t,
        None => Seq::empty(),
    }
}

/// The column description owed for one fetched catalog row: its name and
/// reported type (empty when unreadable), nullable exactly when the catalog
/// reported YES, primary-key exactly when the constraint join reported
/// true.
pub open spec fn column_entry_of(row: sqlx::postgres::PgRow, c: ColumnSchema) -> bool {
    &&& c.name@ == column_text_or_empty(row, "column_name"@)
    &&& c.data_type@ == column_text_or_empty(row, "data_type"@)
    &&& c.nullable == (text_by_name_at(row, "is_nullable"@) == Some("YES"@))
    &&& c.is_primary_key == (bool_by_name_at(row, "is_primary_key"@) == Some(true))
}

/// Reads one fetched column-description row through the driver wrappers.
fn parse_column_row(row: &sqlx::postgres::PgRow) -> (r: ColumnSchema)
    ensures
        column_entry_of(*row, r),
{
    make_column_schema(
        driver::col_text_by_name(row, "column_name"),
        driver::col_text_by_name(row, "data_type"),
        driver::col_text_by_name(row, "is_nullable"),
        driver::col_bool_by_name(row, "is_primary_key"),
    )
}

/// Parses every fetched column-description row of one relation, in the
/// fetched (ordinal) order, each entry exactly the description its row
/// owes.
pub fn parse_column_rows(rows: &Vec<sqlx::postgres::PgRow>) -> (r: Vec<ColumnSchema>)
    ensures
        r@.len() == rows@.len(),
        forall|j: int| 0 <= j < rows@.len() ==> column_entry_of(rows@[j], #[trigger] r@[j]),
{
    let mut out: Vec<ColumnSchema> = Vec::new();
    let mut j: usize = 0;
    while j < rows.len()
        invariant
            0 <= j <= rows@.len(),
            out@.len() == j,
            forall|a: int| 0 <= a < j ==> column_entry_of(rows@[a], #[trigger] out@[a]),
        decreases rows@.len() - j,
    {
        out.push(parse_column_row(&rows[j]));
        j += 1;
    }
    out
}

/// Reads the relation name from one fetched relation-listing row: the
/// catalog's table_name field when the driver can read it, else a
/// descriptive error that aborts the whole introspection.
pub fn parse_relation_name(row: &sqlx::postgres::PgRow) -> (r: Result<String, String>)
    ensures
        r is Ok <==> text_by_name_at(*row, "table_name"@) is Some,
        r matches Ok(s) ==> text_by_name_at(*row, "table_name"@) == Some(s@),
        r matches Err(m) ==> (exists|t: Seq<char>| m@ == "Failed to get table name: "@ + t),
{
    match driver::col_text_result(row, "table_name") {
        Ok(name) => Ok(name),
        Err(e) => {
            let mut m = "Failed to get table name: ".to_owned();
            m.append(e.as_str());
            proof {
                assert(m@ == "Failed to get table name: "@ + e@);
            }
            Err(m)
        },
    }
}

/// Assembles the whole schema from the two relation lists.
pub fn assemble_schema(tables: Vec<TableSchema>, views: Vec<TableSchema>) -> (r: DatabaseSchema)
    ensures
        r.tables@ == tables@,
        r.views@ == views@,
{
    DatabaseSchema { tables, views }
}

} // verus!
