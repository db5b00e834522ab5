use llmrc::config::{Arguments, ConfigSource, ModelConfig};
use llmrc::config::{is_gguf_magic, join_with_commas, validate_model_config};
use llmrc::cpu::{brand_len, write_brand};
use llmrc::http::{create_json_response, get_status_text, status_category};
use llmrc::num::{checked_add_i64, checked_div_i64, checked_mul_i64, checked_sub_i64, u64_to_dec};
use llmrc::platform::{file_exists, get_current_time, get_unix_timestamp};
use llmrc::server::ApiServer;
use llmrc::text::{ensure_trailing_slash, sanitize_filename, str_contains, str_eq, str_find, trim_whitespace};

#[test]
fn test_arguments_creation() {
    let args = Arguments::new("test_config.json".to_string());
    assert_eq!(args.config_path, "test_config.json");
}

#[test]
fn test_api_server_creation() {
    let server = ApiServer::new("localhost".to_string(), 8080);
    assert_eq!(server.host, "localhost");
    assert_eq!(server.port, 8080);
    assert!(!server.is_running());
}

#[test]
fn test_sanitize_filename() {
    let result = sanitize_filename("test@file#name.txt");
    assert_eq!(result, "test_file_name_txt");
}

#[test]
fn test_trim_whitespace() {
    let result = trim_whitespace("  hello world  ");
    assert_eq!(result, "hello world");
}

#[test]
fn test_trim_whitespace_edges() {
    assert_eq!(trim_whitespace(""), "");
    assert_eq!(trim_whitespace("   \t\r\n"), "");
    assert_eq!(trim_whitespace("x"), "x");
    assert_eq!(trim_whitespace("\tnested  space\n"), "nested  space");
}

#[test]
fn test_sanitize_keeps_unicode_letters() {
    assert_eq!(sanitize_filename("café_1"), "café_1");
    assert_eq!(sanitize_filename("a b-c"), "a_b_c");
    assert_eq!(sanitize_filename(""), "");
}

#[test]
fn test_str_contains_and_find() {
    assert!(str_contains("this", "hi"));
    assert!(!str_contains("hi", "this"));
    assert!(str_contains("abc", ""));
    assert_eq!(str_find("ababc", "abc"), Some(2));
    assert_eq!(str_find("ababc", "xyz"), None);
    assert!(str_eq("same", "same"));
    assert!(!str_eq("same", "Same"));
}

#[test]
fn test_u64_to_dec_values() {
    assert_eq!(u64_to_dec(0), "0");
    assert_eq!(u64_to_dec(7), "7");
    assert_eq!(u64_to_dec(1000000), "1000000");
    assert_eq!(u64_to_dec(u64::MAX), "18446744073709551615");
}

#[test]
fn test_checked_arithmetic() {
    assert_eq!(checked_add_i64(2, 3), Some(5));
    assert_eq!(checked_add_i64(i64::MAX, 1), None);
    assert_eq!(checked_sub_i64(2, 3), Some(-1));
    assert_eq!(checked_sub_i64(i64::MIN, 1), None);
    assert_eq!(checked_mul_i64(-4, 5), Some(-20));
    assert_eq!(checked_mul_i64(i64::MAX, 2), None);
    assert_eq!(checked_div_i64(7, 2), Some(3));
    assert_eq!(checked_div_i64(-7, 2), Some(-3));
    assert_eq!(checked_div_i64(7, 0), None);
    assert_eq!(checked_div_i64(i64::MIN, -1), None);
}

#[test]
fn test_status_texts() {
    assert_eq!(get_status_text(200), "OK");
    assert_eq!(get_status_text(400), "Bad Request");
    assert_eq!(get_status_text(404), "Not Found");
    assert_eq!(get_status_text(500), "Internal Server Error");
    assert_eq!(get_status_text(302), "Unknown");
    assert_eq!(status_category(204), "SUCCESS");
    assert_eq!(status_category(404), "WARNING");
    assert_eq!(status_category(503), "ERROR");
    assert_eq!(status_category(302), "UNKNOWN");
}

#[test]
fn test_create_json_response_exact() {
    let r = create_json_response(200, "{}");
    assert_eq!(
        r,
        "HTTP/1.1 200 OK\r\nContent-Type: application/json\r\nContent-Length: 2\r\nAccess-Control-Allow-Origin: *\r\n\r\n{}"
    );
    let r = create_json_response(404, "{\"error\": \"Not found\"}");
    assert_eq!(
        r,
        "HTTP/1.1 404 Not Found\r\nContent-Type: application/json\r\nContent-Length: 22\r\nAccess-Control-Allow-Origin: *\r\n\r\n{\"error\": \"Not found\"}"
    );
}

#[test]
fn test_gguf_magic() {
    assert!(is_gguf_magic(&b"GGUFrest".to_vec()));
    assert!(is_gguf_magic(&b"GGUF".to_vec()));
    assert!(!is_gguf_magic(&b"GGU".to_vec()));
    assert!(!is_gguf_magic(&b"NOPE".to_vec()));
}

#[test]
fn test_write_brand_short_and_long() {
    let mut buf = [0xffu8; 128];
    write_brand(&mut buf, b"Linux CPU");
    assert_eq!(&buf[..9], b"Linux CPU");
    assert_eq!(buf[9], 0);
    assert_eq!(buf[10], 0xff);

    let long = [b'x'; 200];
    let mut buf = [0u8; 128];
    write_brand(&mut buf, &long);
    assert!(buf[..127].iter().all(|&b| b == b'x'));
    assert_eq!(buf[127], 0);
}

#[test]
fn test_join_with_commas() {
    let v: Vec<String> = vec![];
    assert_eq!(join_with_commas(&v), "");
    let v = vec!["a".to_string()];
    assert_eq!(join_with_commas(&v), "a");
    let v = vec!["a".to_string(), "b".to_string(), "c".to_string()];
    assert_eq!(join_with_commas(&v), "a, b, c");
}

#[test]
fn test_validate_model_config_missing() {
    let v = validate_model_config(
        &ConfigSource::Missing,
        "models.json",
        false,
        false,
        &vec![],
        "now".to_string(),
    );
    assert!(!v.is_valid);
    assert_eq!(v.errors, vec!["Configuration file not found: models.json".to_string()]);
    assert!(v.warnings.is_empty());
    assert_eq!(v.validator, "rust_validator");
    assert_eq!(v.validation_time, "now");
}

#[test]
fn test_validate_model_config_unparsable() {
    let v = validate_model_config(
        &ConfigSource::Unparsable("expected value at line 1".to_string()),
        "models.json",
        false,
        false,
        &vec![],
        "now".to_string(),
    );
    assert!(!v.is_valid);
    assert_eq!(v.errors, vec!["Invalid JSON format: expected value at line 1".to_string()]);
}

#[test]
fn test_validate_model_config_parsed() {
    let mut cfg = ModelConfig::default();
    cfg.model_path = "models/a.gguf".to_string();
    cfg.model_preferences.max_file_size_gb = 0;
    cfg.model_preferences.min_file_size_mb = 100;
    let missing = vec!["b.gguf".to_string(), "c.gguf".to_string()];
    let v = validate_model_config(
        &ConfigSource::Parsed(cfg),
        "models.json",
        false,
        false,
        &missing,
        "now".to_string(),
    );
    assert!(!v.is_valid);
    assert_eq!(v.errors, vec!["Model file not found: models/a.gguf".to_string()]);
    assert_eq!(
        v.warnings,
        vec![
            "Model directory not found: models".to_string(),
            "Some fallback models not found: b.gguf, c.gguf".to_string(),
            "Max file size is 0, may be too restrictive".to_string(),
            "Min file size is larger than max file size".to_string(),
        ]
    );
}

#[test]
fn test_validate_model_config_clean() {
    let cfg = ModelConfig::default();
    let v = validate_model_config(
        &ConfigSource::Parsed(cfg),
        "models.json",
        true,
        true,
        &vec![],
        "now".to_string(),
    );
    assert!(v.is_valid);
    assert!(v.errors.is_empty());
    assert!(v.warnings.is_empty());
}

#[test]
fn test_platform_smoke() {
    assert!(get_unix_timestamp() > 0);
    assert_eq!(get_current_time().len(), 19);
    assert!(file_exists("/"));
    assert!(!file_exists("no/such/path/anywhere.xyz"));
}

#[test]
fn test_ensure_trailing_slash() {
    assert_eq!(ensure_trailing_slash("https://host"), "https://host/");
    assert_eq!(ensure_trailing_slash("https://host/"), "https://host/");
    assert_eq!(ensure_trailing_slash(""), "/");
}

#[test]
fn test_brand_len() {
    let mut buf = [0u8; 128];
    write_brand(&mut buf, b"Linux CPU");
    assert_eq!(brand_len(&buf), 9);
    let full = [b'y'; 128];
    assert_eq!(brand_len(&full), 128);
    assert_eq!(brand_len(&[0u8; 128]), 0);
}
