use openfoodfacts::client::{check_status, resolve_base_url, user_agent, ApiClient};
use openfoodfacts::error::CliError;
use openfoodfacts::json::{Json, JsonNumber};
use openfoodfacts::output::Output;
use openfoodfacts::text::{decimal_string, join_strings, trim_end_slashes};

fn text(s: &str) -> Json {
    Json::Str(s.to_string())
}

fn num(n: u64) -> Json {
    Json::Number(JsonNumber::PosInt(n))
}

fn obj(members: Vec<(&str, Json)>) -> Json {
    Json::Object(members.into_iter().map(|(k, v)| (k.to_string(), v)).collect())
}

fn output_with_fields(fields: &[&str]) -> Output {
    Output::new(true, fields.iter().map(|s| s.to_string()).collect())
}

fn sample() -> Json {
    obj(vec![("a", num(1)), ("b", num(2))])
}

#[test]
fn filter_fields_empty_returns_value_unchanged() {
    assert_eq!(Output::new(true, vec![]).filter_fields(sample()), sample());
}

#[test]
fn filter_fields_on_object() {
    let out = output_with_fields(&["product_name", "brands"]);
    let v = obj(vec![("brands", text("Ferrero")), ("nutriscore_grade", text("e")), ("product_name", text("Nutella"))]);
    assert_eq!(out.filter_fields(v), obj(vec![("brands", text("Ferrero")), ("product_name", text("Nutella"))]));
}

#[test]
fn filter_fields_on_flat_array() {
    let out = output_with_fields(&["code"]);
    let v = Json::Array(vec![
        obj(vec![("code", text("123")), ("name", text("A"))]),
        obj(vec![("code", text("456")), ("name", text("B"))]),
        num(5),
    ]);
    assert_eq!(
        out.filter_fields(v),
        Json::Array(vec![obj(vec![("code", text("123"))]), obj(vec![("code", text("456"))]), num(5)])
    );
}

#[test]
fn filter_fields_preserves_pagination_envelope() {
    let out = output_with_fields(&["code", "product_name"]);
    let v = obj(vec![
        ("count", num(100)),
        ("page", num(1)),
        ("page_count", num(5)),
        ("page_size", num(20)),
        (
            "products",
            Json::Array(vec![
                obj(vec![("brands", text("X")), ("code", text("123")), ("product_name", text("A"))]),
                obj(vec![("brands", text("Y")), ("code", text("456")), ("product_name", text("B"))]),
            ]),
        ),
        ("skip", num(0)),
    ]);
    let expected = obj(vec![
        ("count", num(100)),
        ("page", num(1)),
        ("page_count", num(5)),
        ("page_size", num(20)),
        (
            "products",
            Json::Array(vec![
                obj(vec![("code", text("123")), ("product_name", text("A"))]),
                obj(vec![("code", text("456")), ("product_name", text("B"))]),
            ]),
        ),
        ("skip", num(0)),
    ]);
    let once = out.filter_fields(v);
    assert_eq!(once, expected);
    // filtering again keeps the same
    assert_eq!(out.filter_fields(once), expected);
}

#[test]
fn filter_fields_products_not_an_array_is_left_alone() {
    let out = output_with_fields(&["code"]);
    let v = obj(vec![("count", num(1)), ("products", text("none"))]);
    assert_eq!(out.filter_fields(obj(vec![("count", num(1)), ("products", text("none"))])), v);
}

#[test]
fn filter_fields_non_object_passthrough() {
    let out = output_with_fields(&["x"]);
    assert_eq!(out.filter_fields(num(42)), num(42));
    assert_eq!(out.filter_fields(text("hello")), text("hello"));
    assert_eq!(out.filter_fields(Json::Null), Json::Null);
    assert_eq!(out.filter_fields(Json::Number(JsonNumber::Float(0x4045000000000000))), Json::Number(JsonNumber::Float(0x4045000000000000)));
}

#[test]
fn compact_when_forced_or_not_a_terminal() {
    assert!(Output::new(true, vec![]).compact(true));
    assert!(Output::new(true, vec![]).compact(false));
    assert!(Output::new(false, vec![]).compact(false));
    assert!(!Output::new(false, vec![]).compact(true));
}

#[test]
fn status_mapping() {
    assert_eq!(check_status("/p", 200), Ok(()));
    assert_eq!(check_status("/p", 299), Ok(()));
    assert_eq!(check_status("/p", 403), Err(CliError::RateLimited));
    assert_eq!(check_status("/p.json", 404), Err(CliError::NotFound { path: "/p.json".to_string() }));
    assert_eq!(check_status("/p.json", 404).unwrap_err().message(), "not found: /p.json");
    assert_eq!(
        check_status("/p", 500).unwrap_err().message(),
        "API error: HTTP 500 Internal Server Error"
    );
    assert_eq!(
        check_status("/p", 302).unwrap_err().message(),
        "API error: HTTP 302 Found"
    );
    assert_eq!(
        check_status("/p", 599).unwrap_err(),
        CliError::Api { status: 599, reason: None }
    );
    assert_eq!(
        check_status("/p", 599).unwrap_err().message(),
        "API error: HTTP 599 <unknown status code>"
    );
    assert_eq!(
        check_status("/p", 418).unwrap_err(),
        CliError::Api { status: 418, reason: Some("I'm a teapot".to_string()) }
    );
}

#[test]
fn base_url_default_and_trimmed() {
    assert_eq!(resolve_base_url(None), "https://world.openfoodfacts.net");
    assert_eq!(resolve_base_url(Some("http://127.0.0.1:8080//".to_string())), "http://127.0.0.1:8080");
    assert_eq!(resolve_base_url(Some("http://x/api".to_string())), "http://x/api");
    assert_eq!(resolve_base_url(Some("///".to_string())), "");
}

#[test]
fn client_joins_base_url_and_path() {
    let client = ApiClient::new(Some("http://127.0.0.1:9/".to_string()), "1.2.3").unwrap();
    assert_eq!(client.base_url(), "http://127.0.0.1:9");
    assert_eq!(client.request_url("/labels.json"), "http://127.0.0.1:9/labels.json");
}

#[test]
fn user_agent_names_version() {
    assert_eq!(
        user_agent("0.1.0"),
        "openfoodfacts-cli/0.1.0 (https://github.com/alfredvc/openfoodfacts-cli)"
    );
}

#[test]
fn decimal_and_text_helpers() {
    assert_eq!(decimal_string(0), "0");
    assert_eq!(decimal_string(7), "7");
    assert_eq!(decimal_string(10), "10");
    assert_eq!(decimal_string(4821), "4821");
    assert_eq!(decimal_string(u64::MAX), u64::MAX.to_string());
    assert_eq!(trim_end_slashes("a/b/"), "a/b");
    assert_eq!(trim_end_slashes("é/"), "é");
    assert_eq!(join_strings(&vec!["a".to_string(), "b".to_string(), "c".to_string()], ", "), "a, b, c");
    assert_eq!(join_strings(&vec![], ", "), "");
}

#[test]
fn filtering_by_two_lists_is_filtering_by_their_common_fields() {
    let v = Json::Array(vec![
        obj(vec![("a", num(1)), ("b", num(2)), ("c", num(3))]),
        obj(vec![("b", num(4)), ("d", num(5))]),
    ]);
    let ab = output_with_fields(&["a", "b"]);
    let bc = output_with_fields(&["c", "b"]);
    let b = output_with_fields(&["b"]);
    let twice = ab.filter_fields(bc.filter_fields(v));
    let v = Json::Array(vec![
        obj(vec![("a", num(1)), ("b", num(2)), ("c", num(3))]),
        obj(vec![("b", num(4)), ("d", num(5))]),
    ]);
    assert_eq!(twice, b.filter_fields(v));
}

#[test]
fn only_the_set_of_fields_matters() {
    let v = || obj(vec![("a", num(1)), ("b", num(2)), ("c", num(3))]);
    let one = Output::new(true, vec!["c".to_string(), "a".to_string()]);
    let other = Output::new(false, vec!["a".to_string(), "c".to_string(), "a".to_string()]);
    assert_eq!(one.filter_fields(v()), other.filter_fields(v()));
    assert_eq!(one.filter_fields(v()), obj(vec![("a", num(1)), ("c", num(3))]));
}
