//! The pure helpers: pagination, log scrubbing, cookies, static assets,
//! configuration.

use htmx_rs_template::config::{AppConfig, ConfigError, ServerConfig};
use htmx_rs_template::log_sanitizer::sanitize_log_message;
use htmx_rs_template::pagination::{
    calculate_display_range, create_pagination, PageQuery,
};
use htmx_rs_template::sanitization::{self, mask_digit_run};
use htmx_rs_template::security::{
    build_csrf_cookie, csrf_request_allowed, extract_cookie_value, format_validation_errors,
    generate_csrf_token, CsrfConfig, SecurityError,
};
use htmx_rs_template::static_assets::{get_cache_control, is_path_safe, StaticAssetError};
use htmx_rs_template::text::u64_to_string;

#[test]
fn page_defaults_and_clamping() {
    let q = PageQuery { page: None, per_page: None };
    assert_eq!(q.get_page(), 1);
    assert_eq!(q.get_per_page(), 12);
    assert_eq!(q.get_offset(), 0);

    let q = PageQuery { page: Some(-3), per_page: Some(0) };
    assert_eq!(q.get_page(), 1);
    assert_eq!(q.get_per_page(), 1);

    let q = PageQuery { page: Some(3), per_page: Some(1_000) };
    assert_eq!(q.get_page(), 3);
    assert_eq!(q.get_per_page(), 100);
    assert_eq!(q.get_offset(), 200);
}

#[test]
fn pagination_rounds_the_page_count_up() {
    let p = create_pagination(2, 10, 25);
    assert_eq!(p.total_pages, 3);
    assert!(p.has_prev);
    assert!(p.has_next);

    let p = create_pagination(3, 10, 30);
    assert_eq!(p.total_pages, 3);
    assert!(p.has_prev);
    assert!(!p.has_next);

    let p = create_pagination(1, 10, 0);
    assert_eq!(p.total_pages, 0);
    assert!(!p.has_prev);
    assert!(!p.has_next);
}

#[test]
fn pagination_with_zero_page_size_has_no_pages() {
    let p = create_pagination(1, 0, 25);
    assert_eq!(p.total_pages, 0);
    assert!(!p.has_next);
}

#[test]
fn display_range_counts_ordinals() {
    assert_eq!(calculate_display_range(1, 12, 12), (1, 12));
    assert_eq!(calculate_display_range(2, 12, 5), (13, 17));
    assert_eq!(calculate_display_range(3, 10, 0), (21, 20));
}

#[test]
fn sanitize_masks_password_value() {
    assert_eq!(
        sanitize_log_message("login failed password=hunter2&user=admin"),
        "login failed password=********&user=admin"
    );
}

#[test]
fn sanitize_masks_api_key_and_token() {
    assert_eq!(
        sanitize_log_message("api_key=abc123 sent"),
        "api_key=******** sent"
    );
    assert_eq!(
        sanitize_log_message("query token=xyz&rest=1"),
        "query token=********&rest=1"
    );
}

#[test]
fn sanitize_masks_value_running_to_end_of_line() {
    assert_eq!(sanitize_log_message("password=tail"), "password=********");
}

#[test]
fn sanitize_leaves_empty_value_alone() {
    assert_eq!(sanitize_log_message("password=&x=1"), "password=&x=1");
}

#[test]
fn sanitize_masks_structured_bearer_token_only() {
    assert_eq!(
        sanitize_log_message("auth: Bearer aaa.bbb.ccc done"),
        "auth: Bearer ******** done"
    );
    assert_eq!(
        sanitize_log_message("auth: Bearer plain done"),
        "auth: Bearer plain done"
    );
}

#[test]
fn sanitize_without_secrets_is_identity() {
    assert_eq!(sanitize_log_message("all quiet"), "all quiet");
}

#[test]
fn sanitize_masks_several_kinds_in_one_line() {
    assert_eq!(
        sanitize_log_message("password=a&token=b"),
        "password=********&token=********"
    );
}

#[test]
fn cookie_value_is_found_and_decoded() {
    assert_eq!(
        extract_cookie_value("XSRF-TOKEN=abc; theme=dark", "XSRF-TOKEN"),
        Some("abc".to_string())
    );
    assert_eq!(
        extract_cookie_value("theme=dark;  XSRF-TOKEN=a%3Db%2Bc ", "XSRF-TOKEN"),
        Some("a=b+c".to_string())
    );
}

#[test]
fn cookie_value_absent_or_mismatched_is_none() {
    assert_eq!(extract_cookie_value("theme=dark", "XSRF-TOKEN"), None);
    assert_eq!(extract_cookie_value("", "XSRF-TOKEN"), None);
    assert_eq!(extract_cookie_value("XSRF-TOKENX=1", "XSRF-TOKEN"), None);
}

#[test]
fn cookie_with_empty_value_yields_empty_string() {
    assert_eq!(extract_cookie_value("XSRF-TOKEN=", "XSRF-TOKEN"), Some(String::new()));
}

#[test]
fn cookie_pieces_are_trimmed_of_whitespace() {
    assert_eq!(
        extract_cookie_value(" \t XSRF-TOKEN=v \t ", "XSRF-TOKEN"),
        Some("v".to_string())
    );
}

#[test]
fn cookie_decoding_replaces_every_occurrence() {
    assert_eq!(
        extract_cookie_value("T=%2B%2B%3D; U=1", "T"),
        Some("++=".to_string())
    );
}

#[test]
fn pattern_scrub_masks_emails_phones_and_quoted_credentials() {
    assert_eq!(
        sanitization::sanitize_log_message("contact ada@example.com now"),
        "contact ***@***.*** now"
    );
    assert_eq!(
        sanitization::sanitize_log_message("call 0123456789 now"),
        "call 012****789 now"
    );
    assert_eq!(
        sanitization::sanitize_log_message("password='hunter2' ok"),
        "password=*** ok"
    );
    assert_eq!(sanitization::sanitize_log_message("token=\"abc\""), "token=***");
    assert_eq!(sanitization::sanitize_log_message("all quiet here"), "all quiet here");
}

#[test]
fn digit_run_masking_is_exact() {
    assert_eq!(mask_digit_run("0123456789"), "012****789");
    assert_eq!(mask_digit_run("12"), "12");
}

#[test]
fn csrf_tokens_have_the_asked_length_and_alphabet() {
    let token = generate_csrf_token(32);
    assert_eq!(token.chars().count(), 32);
    assert!(token.chars().all(|c| c.is_ascii_alphanumeric()));
    assert_eq!(
        build_csrf_cookie("abc"),
        "XSRF-TOKEN=abc; Path=/; HttpOnly; SameSite=Lax"
    );
}

#[test]
fn csrf_check_passes_safe_methods_and_matching_tokens() {
    let token = "t-1".to_string();
    let other = "t-2".to_string();
    assert!(csrf_request_allowed("GET", true, None, None));
    assert!(csrf_request_allowed("HEAD", true, None, None));
    assert!(csrf_request_allowed("OPTIONS", true, None, None));
    assert!(csrf_request_allowed("POST", false, None, None));
    assert!(csrf_request_allowed("POST", true, Some(&token), Some(&token)));
    assert!(!csrf_request_allowed("POST", true, Some(&token), Some(&other)));
    assert!(!csrf_request_allowed("POST", true, Some(&token), None));
    assert!(!csrf_request_allowed("DELETE", true, None, None));
}

#[test]
fn csrf_config_default_names() {
    let c = CsrfConfig::default();
    assert_eq!(c.cookie_name, "XSRF-TOKEN");
    assert_eq!(c.header_name, "X-XSRF-TOKEN");
    assert_eq!(c.token_length, 32);
    assert!(c.enable_protection);
}

#[test]
fn security_error_messages() {
    assert_eq!(SecurityError::InvalidCsrfToken.message(), "CSRF token 无效");
    assert_eq!(
        SecurityError::ValidationFailed("email is empty".to_string()).message(),
        "输入验证失败: email is empty"
    );
}

#[test]
fn validation_messages_join_with_commas() {
    assert_eq!(format_validation_errors(&vec![]), "");
    assert_eq!(format_validation_errors(&vec!["name is empty".to_string()]), "name is empty");
    assert_eq!(
        format_validation_errors(&vec![
            "name is empty".to_string(),
            "email is invalid".to_string(),
        ]),
        "name is empty, email is invalid"
    );
}

#[test]
fn traversal_paths_are_refused() {
    assert!(is_path_safe("css/app.css").is_ok());
    assert!(is_path_safe("").is_ok());
    assert_eq!(is_path_safe("../etc/passwd"), Err(StaticAssetError::UnsafePath));
    assert_eq!(is_path_safe("a/../b"), Err(StaticAssetError::UnsafePath));
}

#[test]
fn cache_control_by_file_type() {
    assert_eq!(get_cache_control("app.js"), "public, max-age=31536000, immutable");
    assert_eq!(get_cache_control("style.css"), "public, max-age=31536000, immutable");
    assert_eq!(get_cache_control("logo.svg"), "public, max-age=31536000, immutable");
    assert_eq!(get_cache_control("photo.jpeg"), "public, max-age=604800, immutable");
    assert_eq!(get_cache_control("photo.png"), "public, max-age=604800, immutable");
    assert_eq!(get_cache_control("index.html"), "public, max-age=3600, must-revalidate");
    assert_eq!(get_cache_control("data.bin"), "public, max-age=86400");
}

#[test]
fn default_config_is_valid() {
    let c = AppConfig::default();
    assert!(c.validate().is_ok());
    assert!(!c.is_production());
    assert!(c.is_development());
}

#[test]
fn environment_is_checked_case_insensitively() {
    let mut c = AppConfig::default();
    c.environment = "Production".to_string();
    assert!(c.validate().is_ok());
    assert!(c.is_production());
    c.environment = "qa".to_string();
    match c.validate() {
        Err(ConfigError::Validation(msg)) => {
            assert_eq!(msg, "环境必须是 development、staging 或 production")
        }
        other => panic!("expected a validation error, got {:?}", other),
    }
}

#[test]
fn log_level_and_pool_bounds_are_checked() {
    let mut c = AppConfig::default();
    c.log_level = "verbose".to_string();
    match c.validate() {
        Err(ConfigError::Validation(msg)) => {
            assert_eq!(msg, "日志级别必须是 error、warn、info、debug 或 trace")
        }
        other => panic!("expected a validation error, got {:?}", other),
    }
    c.log_level = "WARN".to_string();
    assert!(c.validate().is_ok());
    c.database.max_connections = 1;
    c.database.min_connections = 5;
    match c.validate() {
        Err(ConfigError::Validation(msg)) => {
            assert_eq!(msg, "最大连接数不能小于最小连接数")
        }
        other => panic!("expected a validation error, got {:?}", other),
    }
}

#[test]
fn server_addr_joins_host_and_port() {
    let mut s = ServerConfig::default();
    assert_eq!(s.server_addr(), "127.0.0.1:3000");
    s.host = "0.0.0.0".to_string();
    s.port = 8080;
    assert_eq!(s.server_addr(), "0.0.0.0:8080");
}

#[test]
fn decimal_rendering_is_exact() {
    assert_eq!(u64_to_string(0), "0");
    assert_eq!(u64_to_string(7), "7");
    assert_eq!(u64_to_string(65_535), "65535");
    assert_eq!(u64_to_string(u64::MAX), "18446744073709551615");
}
