//! Verified core of a desktop database client: session state for a single
//! live Postgres connection, SQL statement classification, typed value
//! coercion into a JSON-like model, and schema introspection helpers.

mod ai;
mod connection;
mod driver;
mod query;
mod schema;
mod store;
mod text;
mod value;

pub use ai::AiProvider;
pub use ai::AiSettings;
pub use ai::AiSettingsPublic;
pub use ai::ChatMessage;
pub use ai::all_space;
pub use ai::api_error_message;
pub use ai::api_message_of;
pub use ai::json_field;
pub use ai::json_str;
pub use ai::parsed_json;
pub use ai::check_ai_settings;
pub use ai::get_api_url;
pub use ai::parse_api_error;
pub use ai::require_api_key;
pub use connection::ConnectionConfig;
pub use connection::ConnectionInfo;
pub use connection::Session;
pub use connection::build_connection_string;
pub use connection::connection_string_of;
pub use connection::enc_byte;
pub use connection::enc_bytes;
pub use connection::enc_of;
pub use connection::hex_digit_char;
pub use connection::unreserved_byte;
pub use connection::matches_config;
pub use driver::bool_at;
pub use driver::bool_by_name_at;
pub use driver::bytes_at;
pub use driver::column_names_of;
pub use driver::date_text_at;
pub use driver::i16_at;
pub use driver::i32_at;
pub use driver::i64_at;
pub use driver::json_at;
pub use driver::opt_bytes_view;
pub use driver::opt_str_view;
pub use driver::text_at;
pub use driver::text_by_name_at;
pub use driver::time_text_at;
pub use driver::timestamp_text_at;
pub use driver::timestamptz_text_at;
pub use driver::type_name_at;
pub use driver::uuid_text_at;
pub use query::QueryResult;
pub use query::bits_lookup;
pub use query::char_matches_upper;
pub use query::starts_with_keyword;
pub use query::trimmed_start;
pub use query::StatementKind;
pub use query::build_effecting_result;
pub use query::build_projecting_result;
pub use query::classify_statement;
pub use query::is_projecting_sql;
pub use query::lemma_result_shape;
pub use query::plan_execution;
pub use query::result_matches_statement;
pub use schema::ColumnSchema;
pub use schema::DatabaseSchema;
pub use schema::TableSchema;
pub use schema::assemble_schema;
pub use schema::column_entry_of;
pub use schema::column_text_or_empty;
pub use schema::columns_query_text;
pub use schema::relations_query_text;
pub use schema::columns_query;
pub use schema::make_column_schema;
pub use schema::parse_column_rows;
pub use schema::parse_relation_name;
pub use schema::relations_query;
pub use store::PersistedEditorState;
pub use store::PersistedTab;
pub use store::SavedConnection;
pub use store::first_index_with_id;
pub use store::remove_connection;
pub use store::saved_eq;
pub use store::upsert_connection;
pub use store::without_id;
pub use text::dec_digits;
pub use text::digit_char;
pub use text::is_space;
pub use text::u64_to_dec_string;
pub use value::CellData;
pub use value::CellValue;
pub use value::blob_placeholder;
pub use value::bool_data;
pub use value::bytes_data;
pub use value::cell_of_row;
pub use value::coerce_bool;
pub use value::coerce_bytes;
pub use value::coerce_fallback;
pub use value::coerce_first_text;
pub use value::coerce_float;
pub use value::coerce_int;
pub use value::coerce_json;
pub use value::coerce_text;
pub use value::coerce_value;
pub use value::fallback_cell;
pub use value::fallback_data;
pub use value::first_text_cell;
pub use value::first_text_data;
pub use value::float_type_name;
pub use value::integer_type_name;
pub use value::json_data;
pub use value::json_type_name;
pub use value::text_data;
pub use value::text_type_name;
pub use value::time_type_name;
pub use value::timestamp_type_name;
pub use value::float_bits_finite;
pub use value::float_cell;
pub use value::int_cell;
pub use value::is_finite_bits;
pub use value::lemma_first_text_branch_agnostic;
pub use value::lemma_float_cell_never_non_finite;
pub use value::lemma_int_cell_width_agnostic;
