use dbee_core::AiProvider;
use dbee_core::AiSettings;
use dbee_core::SavedConnection;
use dbee_core::api_error_message;
use dbee_core::assemble_schema;
use dbee_core::check_ai_settings;
use dbee_core::get_api_url;
use dbee_core::make_column_schema;
use dbee_core::parse_api_error;
use dbee_core::parse_column_rows;
use dbee_core::remove_connection;
use dbee_core::require_api_key;
use dbee_core::upsert_connection;

fn saved(id: &str, name: &str) -> SavedConnection {
    SavedConnection {
        id: id.to_string(),
        name: name.to_string(),
        host: "localhost".to_string(),
        port: 5432,
        user: "u".to_string(),
        password: "p".to_string(),
        database: "d".to_string(),
    }
}

#[test]
fn saving_without_id_generates_one_and_appends() {
    let mut list = vec![saved("a", "first")];
    let stored = upsert_connection(&mut list, saved("", "second"));
    assert_eq!(stored.id.len(), 36);
    assert_eq!(stored.name, "second");
    assert_eq!(list.len(), 2);
    assert_eq!(list[0].name, "first");
    assert_eq!(list[1].id, stored.id);
    assert_eq!(list[1].name, "second");
}

#[test]
fn saving_with_known_id_replaces_in_place() {
    let mut list = vec![saved("a", "first"), saved("b", "second"), saved("c", "third")];
    let mut updated = saved("b", "renamed");
    updated.host = "elsewhere".to_string();
    let stored = upsert_connection(&mut list, updated);
    assert_eq!(stored.id, "b");
    assert_eq!(list.len(), 3);
    assert_eq!(list[0].name, "first");
    assert_eq!(list[1].name, "renamed");
    assert_eq!(list[1].host, "elsewhere");
    assert_eq!(list[2].name, "third");
}

#[test]
fn saving_with_unknown_id_appends() {
    let mut list = vec![saved("a", "first")];
    let stored = upsert_connection(&mut list, saved("z", "new"));
    assert_eq!(stored.id, "z");
    assert_eq!(list.len(), 2);
    assert_eq!(list[1].id, "z");
}

#[test]
fn deleting_removes_matching_profiles_in_order() {
    let mut list = vec![saved("a", "one"), saved("b", "two"), saved("a", "three"), saved("c", "four")];
    remove_connection(&mut list, &"a".to_string());
    assert_eq!(list.len(), 2);
    assert_eq!(list[0].name, "two");
    assert_eq!(list[1].name, "four");
}

#[test]
fn deleting_a_missing_id_keeps_the_list() {
    let mut list = vec![saved("a", "one")];
    remove_connection(&mut list, &"zzz".to_string());
    assert_eq!(list.len(), 1);
    assert_eq!(list[0].name, "one");
}

#[test]
fn descriptor_becomes_a_saved_profile() {
    let c = saved("a", "one").into_config();
    let back = SavedConnection::from_config(c);
    assert_eq!(back.id, "a");
    assert_eq!(back.name, "one");
    assert_eq!(back.host, "localhost");
    assert_eq!(back.port, 5432);
    assert_eq!(back.user, "u");
    assert_eq!(back.password, "p");
    assert_eq!(back.database, "d");
}

#[test]
fn saved_profile_becomes_a_descriptor() {
    let c = saved("a", "one").into_config();
    assert_eq!(c.id, "a");
    assert_eq!(c.host, "localhost");
    assert_eq!(c.port, 5432);
    assert!(c.validate().is_ok());
}

#[test]
fn public_settings_hide_the_key_but_report_its_presence() {
    let with_key = AiSettings {
        provider: AiProvider::Openai,
        api_key: "some-key".to_string(),
        model: "gpt-4o".to_string(),
    };
    let p = with_key.into_public();
    assert!(p.has_api_key);
    assert_eq!(p.model, "gpt-4o");
    let without_key = AiSettings {
        provider: AiProvider::Deepseek,
        api_key: String::new(),
        model: "deepseek-chat".to_string(),
    };
    let p = without_key.into_public();
    assert!(!p.has_api_key);
}

#[test]
fn settings_check_requires_a_model_name() {
    let s = AiSettings {
        provider: AiProvider::Openai,
        api_key: "k".to_string(),
        model: "   ".to_string(),
    };
    assert_eq!(check_ai_settings(&s).unwrap_err(), "Model name is required");
}

#[test]
fn settings_check_bounds_the_model_name() {
    let s = AiSettings {
        provider: AiProvider::Openai,
        api_key: "k".to_string(),
        model: "m".repeat(101),
    };
    assert_eq!(check_ai_settings(&s).unwrap_err(), "Model name is too long");
    let ok = AiSettings {
        provider: AiProvider::Openai,
        api_key: "k".to_string(),
        model: "m".repeat(100),
    };
    assert!(check_ai_settings(&ok).is_ok());
}

#[test]
fn each_provider_has_its_endpoint() {
    assert_eq!(get_api_url(&AiProvider::Openai), "https://api.openai.com/v1/chat/completions");
    assert_eq!(get_api_url(&AiProvider::Deepseek), "https://api.deepseek.com/chat/completions");
}

#[test]
fn relaying_needs_configured_settings_and_a_key() {
    assert_eq!(
        require_api_key(None).unwrap_err(),
        "AI settings not configured. Open settings to add your API key."
    );
    let keyless = AiSettings {
        provider: AiProvider::Openai,
        api_key: String::new(),
        model: "m".to_string(),
    };
    assert_eq!(require_api_key(Some(keyless)).unwrap_err(), "API key is not configured");
    let with_key = AiSettings {
        provider: AiProvider::Openai,
        api_key: "k".to_string(),
        model: "m".to_string(),
    };
    assert_eq!(require_api_key(Some(with_key)).unwrap().model, "m");
}

#[test]
fn api_error_prefers_the_providers_message() {
    let body = "{\"error\":{\"message\":\"Invalid API key\"}}";
    assert_eq!(parse_api_error("401 Unauthorized", body), "Invalid API key");
}

#[test]
fn api_error_falls_back_to_the_status_line() {
    assert_eq!(
        parse_api_error("500 Internal Server Error", "not json at all"),
        "Request failed with status 500 Internal Server Error"
    );
    assert_eq!(
        parse_api_error("502 Bad Gateway", "{\"error\":\"plain\"}"),
        "Request failed with status 502 Bad Gateway"
    );
    assert_eq!(api_error_message(None, "503"), "Request failed with status 503");
}

#[test]
fn column_schema_reads_the_catalog_row_fields() {
    let c = make_column_schema(
        Some("id".to_string()),
        Some("integer".to_string()),
        Some("NO".to_string()),
        Some(true),
    );
    assert_eq!(c.name, "id");
    assert_eq!(c.data_type, "integer");
    assert!(!c.nullable);
    assert!(c.is_primary_key);
    let nullable = make_column_schema(
        Some("note".to_string()),
        Some("text".to_string()),
        Some("YES".to_string()),
        Some(false),
    );
    assert!(nullable.nullable);
    assert!(!nullable.is_primary_key);
    let missing = make_column_schema(None, None, None, None);
    assert_eq!(missing.name, "");
    assert_eq!(missing.data_type, "");
    assert!(!missing.nullable);
    assert!(!missing.is_primary_key);
}

#[test]
fn empty_catalog_yields_an_empty_schema() {
    let rows: Vec<sqlx::postgres::PgRow> = Vec::new();
    assert!(parse_column_rows(&rows).is_empty());
    let schema = assemble_schema(Vec::new(), Vec::new());
    assert!(schema.tables.is_empty());
    assert!(schema.views.is_empty());
}
