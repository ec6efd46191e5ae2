use solidgate_connector::api::{
    list_webhook_endpoints_query, response_text, HttpMethod, SolidGateApi, GENERAL_API_URL,
    SUBSCRIPTIONS_API_URL,
};
use solidgate_connector::generate_signature;
use solidgate_connector::model::ApiError;
use std::time::Duration;

fn pairs(items: &[(&str, &str)]) -> Vec<(String, String)> {
    items.iter().map(|(a, b)| (a.to_string(), b.to_string())).collect()
}

fn test_api() -> SolidGateApi {
    SolidGateApi::with_urls(
        "https://subs.example/api/v1//",
        "https://general.example/api/v1",
        "merchant",
        "secret",
        Duration::from_secs(15),
    )
}

#[test]
fn new_uses_production_hosts() {
    let api = SolidGateApi::new("api_pk_1", "api_sk_1", Duration::from_secs(5));
    assert_eq!(api.base_url(), "https://subscriptions.solidgate.com/api/v1");
    assert_eq!(api.general_api_url(), "https://api.solidgate.com/api/v1");
    assert_eq!(api.base_url(), SUBSCRIPTIONS_API_URL);
    assert_eq!(api.general_api_url(), GENERAL_API_URL);
}

#[test]
fn with_urls_keeps_the_given_hosts() {
    let api = test_api();
    assert_eq!(api.base_url(), "https://subs.example/api/v1//");
    assert_eq!(api.general_api_url(), "https://general.example/api/v1");
}

#[test]
fn credentials_debug_masks_keys() {
    let api = SolidGateApi::new("api_pk_7b0c2f9e1d", "api_sk_abc", Duration::from_secs(5));
    assert_eq!(
        api.credentials_debug(),
        "public_key(merchant): prefix=\"api_pk_7b0c2\" len=17; secret_key: type=\"api_sk_\" len=10"
    );
}

#[test]
fn credentials_debug_flags_whitespace() {
    let api = SolidGateApi::new(" api_pk_x", "wh_sk_abc\n", Duration::from_secs(5));
    assert_eq!(
        api.credentials_debug(),
        "public_key(merchant): prefix=\" api_pk_x\" len=9, HAS_WHITESPACE; secret_key: type=\"wh_sk_a\" len=10, HAS_WHITESPACE"
    );
}

#[test]
fn credentials_debug_short_and_unicode_keys() {
    let api = SolidGateApi::new("ключ", "", Duration::from_secs(5));
    assert_eq!(
        api.credentials_debug(),
        "public_key(merchant): prefix=\"ключ\" len=8; secret_key: type=\"\" len=0"
    );
    let quoted = SolidGateApi::new("a\"b", "s", Duration::from_secs(5));
    assert_eq!(
        quoted.credentials_debug(),
        "public_key(merchant): prefix=\"a\\\"b\" len=3; secret_key: type=\"s\" len=1"
    );
}

#[test]
fn method_names() {
    assert_eq!(HttpMethod::Get.name(), "GET");
    assert_eq!(HttpMethod::Post.name(), "POST");
    assert_eq!(HttpMethod::Put.name(), "PUT");
    assert_eq!(HttpMethod::Patch.name(), "PATCH");
    assert_eq!(HttpMethod::Delete.name(), "DELETE");
}

#[test]
fn sign_request_builds_url_headers_and_body() {
    let api = test_api();
    let body = "{\"a\":1}".to_string();
    let req = api.sign_request(
        api.base_url(),
        "subscription/cancel",
        HttpMethod::Post,
        pairs(&[("x", "1")]),
        Some(body.clone()),
    );
    assert_eq!(req.url, "https://subs.example/api/v1/subscription/cancel");
    assert_eq!(req.method, HttpMethod::Post);
    let signature = generate_signature("merchant", "secret", body.as_bytes());
    assert_eq!(
        req.headers,
        pairs(&[
            ("Content-Type", "application/json"),
            ("Accept", "application/json"),
            ("Merchant", "merchant"),
            ("Signature", signature.as_str()),
        ])
    );
    assert_eq!(req.query, pairs(&[("x", "1")]));
    assert_eq!(req.body, body);
    assert_eq!(req.json_body, Some(body.as_bytes().to_vec()));
    assert_eq!(req.timeout, Duration::from_secs(15));
}

#[test]
fn sign_request_without_body_signs_empty_bytes() {
    let api = test_api();
    let req = api.sign_request("https://h", "p", HttpMethod::Get, Vec::new(), None);
    assert_eq!(req.url, "https://h/p");
    assert_eq!(req.body, "");
    assert_eq!(req.json_body, None);
    assert_eq!(req.headers[3].1, generate_signature("merchant", "secret", b""));
    let empty = api.sign_request("https://h", "p", HttpMethod::Post, Vec::new(), Some(String::new()));
    assert_eq!(empty.json_body, None);
    assert_eq!(empty.headers, req.headers);
}

#[test]
fn query_does_not_change_signature() {
    let api = test_api();
    let a = api.sign_request("https://h", "p", HttpMethod::Get, Vec::new(), None);
    let b = api.sign_request("https://h", "p", HttpMethod::Get, pairs(&[("k", "v")]), None);
    assert_eq!(a.headers, b.headers);
}

#[test]
fn operation_requests() {
    let api = test_api();
    let cancel = api.cancel_subscription_request("{}".to_string());
    assert_eq!(cancel.url, "https://subs.example/api/v1/subscription/cancel");
    assert_eq!(cancel.method, HttpMethod::Post);
    assert_eq!(cancel.json_body, Some(b"{}".to_vec()));

    let create = api.create_webhook_endpoint_request("{\"url\":\"u\"}".to_string());
    assert_eq!(create.url, "https://general.example/api/v1/webhooks/endpoints");
    assert_eq!(create.method, HttpMethod::Post);

    let list = api.list_webhook_endpoints_request(Some("we_1"), Some(20), None);
    assert_eq!(list.url, "https://general.example/api/v1/webhooks/endpoints");
    assert_eq!(list.method, HttpMethod::Get);
    assert_eq!(list.query, pairs(&[("filter[id]", "we_1"), ("pagination[limit]", "20")]));
    assert_eq!(list.json_body, None);

    let update = api.update_webhook_endpoint_request("we_1", "{\"status\":\"inactive\"}".to_string());
    assert_eq!(update.url, "https://general.example/api/v1/webhooks/endpoints/we_1");
    assert_eq!(update.method, HttpMethod::Patch);
    assert_eq!(update.body, "{\"status\":\"inactive\"}");

    let delete = api.delete_webhook_endpoint_request("we_2");
    assert_eq!(delete.url, "https://general.example/api/v1/webhooks/endpoints/we_2");
    assert_eq!(delete.method, HttpMethod::Delete);
    assert_eq!(delete.json_body, None);
    assert_eq!(delete.headers[3].1, generate_signature("merchant", "secret", b""));
}

#[test]
fn list_query_holds_given_filters_in_order() {
    assert_eq!(
        list_webhook_endpoints_query(Some("we_1"), Some(10), Some(-5)),
        pairs(&[("filter[id]", "we_1"), ("pagination[limit]", "10"), ("pagination[offset]", "-5")])
    );
    assert_eq!(list_webhook_endpoints_query(None, None, Some(0)), pairs(&[("pagination[offset]", "0")]));
    assert_eq!(list_webhook_endpoints_query(None, None, None), Vec::<(String, String)>::new());
    assert_eq!(
        list_webhook_endpoints_query(None, Some(i64::MIN), None),
        pairs(&[("pagination[limit]", "-9223372036854775808")])
    );
}

#[test]
fn error_object_wins_over_success_status() {
    let api = test_api();
    let req = api.list_webhook_endpoints_request(None, None, None);
    let error = ApiError {
        code: "1.01".to_string(),
        messages: vec!["Invalid credentials".to_string(), "Check keys".to_string()],
    };
    let body = "{\"error\":{}}".to_string();
    assert_eq!(
        api.check_response(&req, 200, body.clone(), Some(error)),
        Err(format!(
            "SolidGate API error 1.01: Invalid credentials; Check keys. Url: GET https://general.example/api/v1/webhooks/endpoints. merchant_prefix=\"merchant\". Raw response: {body}"
        ))
    );
}

#[test]
fn error_object_with_no_messages() {
    let api = test_api();
    let req = api.delete_webhook_endpoint_request("x");
    let error = ApiError { code: "2.01".to_string(), messages: Vec::new() };
    assert_eq!(
        api.check_response(&req, 500, "r".to_string(), Some(error)),
        Err("SolidGate API error 2.01: . Url: DELETE https://general.example/api/v1/webhooks/endpoints/x. merchant_prefix=\"merchant\". Raw response: r".to_string())
    );
}

#[test]
fn status_above_299_is_an_error() {
    let api = test_api();
    let req = api.update_webhook_endpoint_request("we_1", "{}".to_string());
    assert_eq!(
        api.check_response(&req, 404, "not found".to_string(), None),
        Err("Response code: 404. Url: PATCH https://general.example/api/v1/webhooks/endpoints/we_1. Request: {}. Response: not found".to_string())
    );
    assert!(api.check_response(&req, 300, String::new(), None).is_err());
}

#[test]
fn success_status_returns_body() {
    let api = test_api();
    let req = api.cancel_subscription_request("{}".to_string());
    assert_eq!(api.check_response(&req, 200, "{\"status\":\"ok\"}".to_string(), None), Ok("{\"status\":\"ok\"}".to_string()));
    assert_eq!(api.check_response(&req, 299, "x".to_string(), None), Ok("x".to_string()));
}

#[test]
fn response_text_decodes_utf8() {
    assert_eq!(response_text("héllo".as_bytes().to_vec()), Ok("héllo".to_string()));
    assert_eq!(response_text(Vec::new()), Ok(String::new()));
}

#[test]
fn response_text_rejects_invalid_utf8() {
    assert_eq!(
        response_text(vec![102, 255]),
        Err("Non-utf8 response body: FromUtf8Error { bytes: [102, 255], error: Utf8Error { valid_up_to: 1, error_len: Some(1) } }".to_string())
    );
}

#[test]
fn request_signature_header_verifies() {
    let api = test_api();
    let req = api.create_webhook_endpoint_request("{\"url\":\"https://e.com\"}".to_string());
    assert_eq!(req.headers[3].0, "Signature");
    assert!(solidgate_connector::verify_signature("merchant", "secret", req.body.as_bytes(), &req.headers[3].1));
}

#[test]
fn summary_hides_secret_key_beyond_its_tag() {
    let a = SolidGateApi::new("pk", "api_sk_AAAAAAAA", Duration::from_secs(1));
    let b = SolidGateApi::new("pk", "api_sk_BBBBBBBB", Duration::from_secs(1));
    assert_eq!(a.credentials_debug(), b.credentials_debug());
}

#[test]
fn trailing_slash_on_host_is_ignored() {
    let with_slash = SolidGateApi::with_urls("https://s/api/", "https://g/api/", "m", "s", Duration::from_secs(1));
    let without = SolidGateApi::with_urls("https://s/api", "https://g/api", "m", "s", Duration::from_secs(1));
    assert_eq!(with_slash.cancel_subscription_request("{}".to_string()).url, without.cancel_subscription_request("{}".to_string()).url);
    assert_eq!(with_slash.delete_webhook_endpoint_request("x").url, "https://g/api/webhooks/endpoints/x");
}

#[test]
fn get_and_delete_ignore_a_given_body() {
    let api = test_api();
    for method in [HttpMethod::Get, HttpMethod::Delete] {
        let req = api.sign_request("https://h", "p", method, Vec::new(), Some("{\"a\":1}".to_string()));
        assert_eq!(req.body, "");
        assert_eq!(req.json_body, None);
        assert_eq!(req.headers[3].1, generate_signature("merchant", "secret", b""));
    }
    let put = api.sign_request("https://h", "p", HttpMethod::Put, Vec::new(), Some("{\"a\":1}".to_string()));
    assert_eq!(put.json_body, Some(b"{\"a\":1}".to_vec()));
    assert_eq!(put.headers[3].1, generate_signature("merchant", "secret", b"{\"a\":1}"));
}
