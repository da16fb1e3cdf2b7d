use openfoodfacts::commands::facets::{is_valid_facet_type, list_path, list_result};
use openfoodfacts::error::CliError;
use openfoodfacts::json::{Json, JsonNumber};
use openfoodfacts::output::Output;

fn text(s: &str) -> Json {
    Json::Str(s.to_string())
}

fn num(n: u64) -> Json {
    Json::Number(JsonNumber::PosInt(n))
}

fn obj(members: Vec<(&str, Json)>) -> Json {
    Json::Object(members.into_iter().map(|(k, v)| (k.to_string(), v)).collect())
}

fn tag(id: &str, name: &str, products: u64, url: &str) -> Json {
    obj(vec![
        ("id", text(id)),
        ("known", num(1)),
        ("name", text(name)),
        ("products", num(products)),
        ("url", text(url)),
    ])
}

fn member<'a>(v: &'a Json, key: &str) -> Option<&'a Json> {
    v.get(&key.to_string())
}

#[test]
fn facets_list_categories() {
    assert_eq!(list_path(&"categories".to_string()), Ok("/categories.json".to_string()));
    let body = obj(vec![
        ("count", num(3)),
        (
            "tags",
            Json::Array(vec![
                tag("en:chocolates", "Chocolates", 4821, "https://world.openfoodfacts.net/category/en:chocolates"),
                tag("en:breads", "Breads", 2000, "https://world.openfoodfacts.net/category/en:breads"),
                tag("en:cheeses", "Cheeses", 1500, "https://world.openfoodfacts.net/category/en:cheeses"),
            ]),
        ),
    ]);
    let out = Output::new(false, vec![]).filter_fields(list_result(body));
    match &out {
        Json::Array(arr) => {
            assert_eq!(arr.len(), 3);
            assert_eq!(member(&arr[0], "id"), Some(&text("en:chocolates")));
            assert_eq!(member(&arr[0], "name"), Some(&text("Chocolates")));
            assert_eq!(member(&arr[0], "products"), Some(&num(4821)));
        },
        _ => panic!("expected an array"),
    }
    // count envelope dropped
    assert!(member(&out, "count").is_none());
}

#[test]
fn facets_list_unknown_type_errors() {
    let err = list_path(&"foobar".to_string()).unwrap_err();
    assert_eq!(err, CliError::UnknownFacetType { facet_type: "foobar".to_string() });
    let error = err.message();
    assert!(error.contains("unknown facet type"));
    assert!(error.contains("foobar"));
    assert!(error.contains("categories"));
}

#[test]
fn facets_list_with_fields() {
    assert_eq!(list_path(&"labels".to_string()), Ok("/labels.json".to_string()));
    let body = obj(vec![
        ("count", num(2)),
        (
            "tags",
            Json::Array(vec![
                tag("en:organic", "Organic", 1000, "..."),
                tag("en:vegan", "Vegan", 500, "..."),
            ]),
        ),
    ]);
    let output = Output::new(false, vec!["id".to_string(), "products".to_string()]);
    let out = output.filter_fields(list_result(body));
    match &out {
        Json::Array(arr) => {
            assert_eq!(arr[0], obj(vec![("id", text("en:organic")), ("products", num(1000))]));
            assert!(member(&arr[0], "name").is_none());
            assert!(member(&arr[0], "url").is_none());
        },
        _ => panic!("expected an array"),
    }
}

#[test]
fn facet_error_message_lists_all_valid_types() {
    let err = CliError::UnknownFacetType { facet_type: "foo".to_string() };
    assert_eq!(
        err.message(),
        "unknown facet type: \"foo\" \u{2014} valid: categories, labels, ingredients, brands, countries, additives, allergens, packaging"
    );
}

#[test]
fn every_valid_facet_type_is_accepted() {
    for t in ["categories", "labels", "ingredients", "brands", "countries", "additives", "allergens", "packaging"] {
        assert!(is_valid_facet_type(&t.to_string()));
        assert_eq!(list_path(&t.to_string()), Ok(format!("/{}.json", t)));
    }
    assert!(!is_valid_facet_type(&"Categories".to_string()));
    assert!(!is_valid_facet_type(&"".to_string()));
}

#[test]
fn facet_answer_without_tags_gives_empty_array() {
    assert_eq!(list_result(obj(vec![("count", num(0))])), Json::Array(vec![]));
    assert_eq!(list_result(Json::Null), Json::Array(vec![]));
}
