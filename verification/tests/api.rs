//! The API side: the e-commerce service, the error taxonomy, the routing
//! table and the subscription checks.

use meta::allframe_client::{AllFrameClient, AllFrameClientConfig};
use meta::allframe_service::AllFrameService;
use meta::api_config::Config;
use meta::error::{json_escape, ApiError};
use meta::router::{create_router, route_to_handler};
use meta::subscription::{subscribe_outcome, validate_subscribe_request};

#[test]
fn test_search_products() {
    let mut service = AllFrameService::new();
    let response = service.search_products("Widget".to_string()).unwrap();
    assert_eq!(response.query, "Widget");
    assert!(!response.results.is_empty());
    assert_eq!(response.results.len(), 2);
    assert_eq!(response.results[0].name, "Widget Pro");
    assert_eq!(response.results[1].name, "Widget Basic");
}

#[test]
fn search_is_case_insensitive_and_can_be_empty() {
    let mut service = AllFrameService::new();
    let response = service.search_products("gADGET".to_string()).unwrap();
    assert_eq!(response.results.len(), 2);
    let none = service.search_products("frobnicator".to_string()).unwrap();
    assert!(none.results.is_empty());
}

#[test]
fn test_create_order() {
    let mut service = AllFrameService::new();
    let response = service.create_order("Widget".to_string(), 1).unwrap();
    assert_eq!(response.product, "Widget");
    assert_eq!(response.status, "created");
    assert_eq!(response.order_id.len(), 36);
}

#[test]
fn test_get_user() {
    let mut service = AllFrameService::new();
    let response = service.get_user(None).unwrap();
    assert!(!response.id.is_empty());
    assert_eq!(response.email, "user@example.com");
    assert_eq!(response.name, format!("User {}", response.id));
    let known = service.get_user(Some("user-123".to_string())).unwrap();
    assert_eq!(known.id, "user-123");
}

#[test]
fn test_metrics_tracking() {
    let mut service = AllFrameService::new();
    let metrics = service.get_metrics().unwrap();
    assert_eq!(metrics.orders, 0);
    assert_eq!(metrics.users, 0);
    assert_eq!(metrics.api_calls, 0);

    service.create_order("Widget".to_string(), 1).unwrap();
    service.create_order("Gadget".to_string(), 2).unwrap();
    service.get_user(None).unwrap();
    service.search_products("Widget".to_string()).unwrap();

    let metrics = service.get_metrics().unwrap();
    assert_eq!(metrics.orders, 2);
    assert_eq!(metrics.users, 1);
    assert_eq!(metrics.api_calls, 4);
    assert_eq!(metrics.products, 10);
}

#[test]
fn error_status_codes() {
    assert_eq!(ApiError::bad_request("x".to_string()).status_code(), 400);
    assert_eq!(ApiError::not_found("x".to_string()).status_code(), 404);
    assert_eq!(ApiError::internal_server_error("x".to_string()).status_code(), 500);
    assert_eq!(ApiError::external_service_error("x".to_string()).status_code(), 502);
    assert_eq!(ApiError::config_error("x".to_string()).status_code(), 500);
}

#[test]
fn error_renders_exact_json() {
    let e = ApiError::bad_request("missing field".to_string());
    assert_eq!(e.to_json(), "{\"error\":\"Bad Request\",\"message\":\"Bad request: missing field\"}");
    let e = ApiError::config_error("no key".to_string());
    assert_eq!(
        e.to_json(),
        "{\"error\":\"Configuration Error\",\"message\":\"Configuration error: no key\"}"
    );
}

#[test]
fn error_json_escapes_payloads() {
    let e = ApiError::not_found("a \"quoted\"\npath\\here".to_string());
    assert_eq!(
        e.to_json(),
        "{\"error\":\"Not Found\",\"message\":\"Not found: a \\\"quoted\\\"\\npath\\\\here\"}"
    );
}

#[test]
fn json_escape_handles_controls() {
    assert_eq!(json_escape("a\tb"), "a\\tb");
    assert_eq!(json_escape("\r\n"), "\\r\\n");
    assert_eq!(json_escape("\u{8}\u{c}"), "\\b\\f");
    assert_eq!(json_escape("\u{1f}"), "\\u001f");
    assert_eq!(json_escape("plain"), "plain");
}

#[test]
fn routes_map_to_handlers() {
    assert_eq!(route_to_handler("GET", "/"), Some("root"));
    assert_eq!(route_to_handler("GET", "/health"), Some("health"));
    assert_eq!(route_to_handler("GET", "/docs"), Some("docs"));
    assert_eq!(route_to_handler("GET", "/docs/openapi.json"), Some("openapi"));
    assert_eq!(route_to_handler("POST", "/api/products/search"), Some("search_products"));
    assert_eq!(route_to_handler("POST", "/api/orders"), Some("create_order"));
    assert_eq!(route_to_handler("POST", "/api/shipping/calculate"), Some("calculate_shipping"));
    assert_eq!(route_to_handler("POST", "/api/users"), Some("get_user"));
    assert_eq!(route_to_handler("POST", "/api/subscribe"), Some("subscribe"));
    assert_eq!(route_to_handler("DELETE", "/"), None);
    assert_eq!(route_to_handler("GET", "/nope"), None);
}

#[test]
fn test_handler_count() {
    let router = create_router();
    assert_eq!(router.handlers_count(), 7);
}

#[test]
fn test_nonexistent_handler() {
    let router = create_router();
    assert!(!router.has_handler("nonexistent"));
    assert!(router.has_handler("health"));
    assert!(router.has_handler("subscribe"));
}

#[test]
fn client_builds_with_default_config() {
    let config = AllFrameClientConfig::default();
    assert_eq!(config.base_url, "http://localhost:4400");
    assert_eq!(config.timeout_secs, 30);
    assert!(config.api_key.is_none());
    let client = AllFrameClient::new(config);
    assert!(client.is_ok());
}

#[test]
fn api_config_defaults() {
    let config = Config::default();
    assert_eq!(config.port, 4400);
    assert_eq!(config.host, "0.0.0.0");
    assert_eq!(config.environment, "development");
    assert!(config.loops_api_key.is_none());
    assert!(config.loops_form_id.is_none());
}

#[test]
fn test_invalid_email() {
    let r = validate_subscribe_request("invalid-email", &Some("test-form-id".to_string()));
    match r {
        Err(e) => assert!(e.message().contains("Invalid email format")),
        Ok(_) => panic!("an address without @ must be rejected"),
    }
}

#[test]
fn subscribe_checks_build_the_form_url() {
    let url = validate_subscribe_request("a@b.c", &Some("form-1".to_string())).unwrap();
    assert_eq!(url, "https://app.loops.so/api/newsletter-form/form-1");
    let missing = validate_subscribe_request("a@b.c", &None).unwrap_err();
    assert_eq!(missing.status_code(), 500);
    assert!(missing.message().contains("Loops form ID not configured"));
}

#[test]
fn subscribe_outcome_prefers_the_reported_field() {
    let (ok, msg, id) = subscribe_outcome(false, Some(true), Some("hi".to_string()), None);
    assert!(ok);
    assert_eq!(msg.as_deref(), Some("hi"));
    assert_eq!(id, None);
    let (ok2, _, _) = subscribe_outcome(true, None, None, Some("x".to_string()));
    assert!(ok2);
    let (ok3, _, _) = subscribe_outcome(false, None, None, None);
    assert!(!ok3);
}
