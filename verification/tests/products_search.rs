use openfoodfacts::cli::ProductsCommand;
use openfoodfacts::commands::products::{extract_products, search_plan, PageFetch};
use openfoodfacts::json::{Json, JsonNumber};
use openfoodfacts::output::Output;

fn text(s: &str) -> Json {
    Json::Str(s.to_string())
}

fn num(n: u64) -> Json {
    Json::Number(JsonNumber::PosInt(n))
}

fn obj(members: Vec<(&str, Json)>) -> Json {
    Json::Object(members.into_iter().map(|(k, v)| (k.to_string(), v)).collect())
}

fn member<'a>(v: &'a Json, key: &str) -> Option<&'a Json> {
    v.get(&key.to_string())
}

fn search_page(page: u64, page_count: u64, items: Vec<Json>) -> Json {
    obj(vec![
        ("count", num(100)),
        ("page", num(page)),
        ("page_count", num(page_count)),
        ("page_size", num(20)),
        ("products", Json::Array(items)),
        ("skip", num(0)),
    ])
}

fn product(code: &str, name: &str) -> Json {
    obj(vec![("brands", text("TestBrand")), ("code", text(code)), ("product_name", text(name))])
}

fn search(
    query: Option<&str>,
    category: Option<&str>,
    nutrition_grade: Option<&str>,
    label: Option<&str>,
    all: bool,
) -> ProductsCommand {
    ProductsCommand::Search {
        query: query.map(|s| s.to_string()),
        category: category.map(|s| s.to_string()),
        nutrition_grade: nutrition_grade.map(|s| s.to_string()),
        ecoscore_grade: None,
        label: label.map(|s| s.to_string()),
        ingredient: None,
        allergen: None,
        sort_by: None,
        page: 1,
        page_size: 20,
        all,
    }
}

fn pairs(params: &[(&str, &str)]) -> Vec<(String, String)> {
    params.iter().map(|(k, v)| (k.to_string(), v.to_string())).collect()
}

fn has_param(params: &[(String, String)], name: &str, value: &str) -> bool {
    params.iter().any(|(k, v)| k == name && v == value)
}

fn first_product(v: &Json) -> &Json {
    match member(v, "products") {
        Some(Json::Array(items)) => &items[0],
        _ => panic!("no products"),
    }
}

#[test]
fn search_filter_only_uses_v2() {
    let plan = search_plan(&search(None, Some("en:chocolates"), None, None, false));
    assert_eq!(plan.endpoint, "/api/v2/search");
    assert!(has_param(&plan.params, "categories_tags", "en:chocolates"));
    assert!(!plan.fetch_all);
    let body = search_page(1, 1, vec![product("123", "Dark Choc")]);
    let json = Output::new(false, vec![]).filter_fields(body);
    assert_eq!(member(&json, "count"), Some(&num(100)));
    assert_eq!(member(first_product(&json), "product_name"), Some(&text("Dark Choc")));
}

#[test]
fn search_query_only_uses_v1() {
    let plan = search_plan(&search(Some("chocolate"), None, None, None, false));
    assert_eq!(plan.endpoint, "/cgi/search.pl");
    assert!(has_param(&plan.params, "search_terms", "chocolate"));
    assert!(has_param(&plan.params, "json", "1"));
    let body = search_page(1, 1, vec![product("456", "Choc Bar")]);
    let json = Output::new(false, vec![]).filter_fields(body);
    assert_eq!(member(first_product(&json), "product_name"), Some(&text("Choc Bar")));
}

#[test]
fn search_query_with_filter_uses_v1_tagtype_syntax() {
    let plan = search_plan(&search(Some("biscuit"), None, Some("a"), None, false));
    assert_eq!(plan.endpoint, "/cgi/search.pl");
    assert!(has_param(&plan.params, "search_terms", "biscuit"));
    assert!(has_param(&plan.params, "tagtype_0", "nutrition_grades"));
    assert!(has_param(&plan.params, "tag_contains_0", "contains"));
    assert!(has_param(&plan.params, "tag_0", "a"));
    assert!(has_param(&plan.params, "json", "1"));
    let body = search_page(1, 1, vec![product("789", "Healthy Biscuit")]);
    let json = Output::new(false, vec![]).filter_fields(body);
    assert_eq!(member(first_product(&json), "code"), Some(&text("789")));
}

#[test]
fn search_fields_preserves_envelope() {
    let plan = search_plan(&search(None, None, None, None, false));
    assert_eq!(plan.endpoint, "/api/v2/search");
    let output = Output::new(false, vec!["code".to_string(), "product_name".to_string()]);
    let json = output.filter_fields(search_page(1, 1, vec![product("111", "Thing"), product("222", "Other")]));
    // Envelope preserved
    assert_eq!(member(&json, "count"), Some(&num(100)));
    assert_eq!(member(&json, "page"), Some(&num(1)));
    assert_eq!(member(&json, "page_count"), Some(&num(1)));
    assert_eq!(member(&json, "page_size"), Some(&num(20)));
    // Items filtered
    assert_eq!(first_product(&json), &obj(vec![("code", text("111")), ("product_name", text("Thing"))]));
    assert!(member(first_product(&json), "brands").is_none());
}

#[test]
fn search_all_fetches_multiple_pages() {
    let plan = search_plan(&search(None, None, None, None, true));
    assert!(plan.fetch_all);
    assert_eq!(plan.endpoint, "/api/v2/search");
    let mut fetch = PageFetch::new(&plan.params);
    let first = fetch.next_request().unwrap();
    assert!(has_param(&first, "page", "1"));
    fetch.receive(search_page(1, 2, vec![product("111", "A")]));
    let second = fetch.next_request().unwrap();
    assert!(has_param(&second, "page", "2"));
    assert!(!has_param(&second, "page", "1"));
    fetch.receive(search_page(2, 2, vec![product("222", "B")]));
    assert!(fetch.next_request().is_none());
    // --all returns flat array
    let json = Output::new(false, vec![]).filter_fields(Json::Array(fetch.into_products()));
    match &json {
        Json::Array(arr) => {
            assert_eq!(arr.len(), 2);
            assert_eq!(member(&arr[0], "code"), Some(&text("111")));
            assert_eq!(member(&arr[1], "code"), Some(&text("222")));
        },
        _ => panic!("expected an array"),
    }
}

#[test]
fn search_multiple_filters_v2() {
    let plan = search_plan(&search(None, Some("en:chocolates"), Some("a"), Some("en:organic"), false));
    assert_eq!(plan.endpoint, "/api/v2/search");
    assert!(has_param(&plan.params, "categories_tags", "en:chocolates"));
    assert!(has_param(&plan.params, "nutrition_grades_tags", "a"));
    assert!(has_param(&plan.params, "labels_tags", "en:organic"));
    let body = search_page(1, 1, vec![product("999", "Organic Dark Choc")]);
    let json = Output::new(false, vec![]).filter_fields(body);
    assert_eq!(member(first_product(&json), "code"), Some(&text("999")));
}

#[test]
fn v2_parameters_in_order() {
    let command = ProductsCommand::Search {
        query: None,
        category: Some("en:chocolates".to_string()),
        nutrition_grade: Some("a".to_string()),
        ecoscore_grade: Some("b".to_string()),
        label: Some("en:organic".to_string()),
        ingredient: Some("en:salt".to_string()),
        allergen: Some("en:gluten".to_string()),
        sort_by: Some("unique_scans_n".to_string()),
        page: 3,
        page_size: 100,
        all: false,
    };
    let plan = search_plan(&command);
    assert_eq!(
        plan.params,
        pairs(&[
            ("page", "3"),
            ("page_size", "100"),
            ("categories_tags", "en:chocolates"),
            ("nutrition_grades_tags", "a"),
            ("ecoscore_tags", "b"),
            ("labels_tags", "en:organic"),
            ("ingredients_tags", "en:salt"),
            ("allergens_tags", "en:gluten"),
            ("sort_by", "unique_scans_n"),
        ])
    );
}

#[test]
fn v1_parameters_number_filters_from_zero() {
    let command = ProductsCommand::Search {
        query: Some("organic olive oil".to_string()),
        category: None,
        nutrition_grade: None,
        ecoscore_grade: Some("b".to_string()),
        label: Some("en:organic".to_string()),
        ingredient: None,
        allergen: Some("en:gluten".to_string()),
        sort_by: Some("last_modified_t".to_string()),
        page: 12,
        page_size: 7,
        all: false,
    };
    let plan = search_plan(&command);
    assert_eq!(plan.endpoint, "/cgi/search.pl");
    assert_eq!(
        plan.params,
        pairs(&[
            ("search_terms", "organic olive oil"),
            ("json", "1"),
            ("page", "12"),
            ("page_size", "7"),
            ("sort_by", "last_modified_t"),
            ("tagtype_0", "ecoscore_grade"),
            ("tag_contains_0", "contains"),
            ("tag_0", "b"),
            ("tagtype_1", "labels"),
            ("tag_contains_1", "contains"),
            ("tag_1", "en:organic"),
            ("tagtype_2", "allergens"),
            ("tag_contains_2", "contains"),
            ("tag_2", "en:gluten"),
        ])
    );
}

#[test]
fn all_pages_replaces_the_page_number() {
    let params = pairs(&[("page", "5"), ("page_size", "20"), ("labels_tags", "en:vegan")]);
    let fetch = PageFetch::new(&params);
    assert_eq!(
        fetch.next_request().unwrap(),
        pairs(&[("page_size", "20"), ("labels_tags", "en:vegan"), ("page", "1")])
    );
}

#[test]
fn all_pages_without_page_count_fetches_one_page() {
    let mut fetch = PageFetch::new(&pairs(&[("page", "1")]));
    fetch.receive(obj(vec![("products", Json::Array(vec![product("1", "A")]))]));
    assert!(fetch.next_request().is_none());
    assert_eq!(fetch.into_products().len(), 1);

    let mut fetch = PageFetch::new(&pairs(&[("page", "1")]));
    fetch.receive(search_page(1, 0, vec![]));
}

#[test]
fn all_pages_fetches_up_to_the_announced_count() {
    let mut fetch = PageFetch::new(&pairs(&[("page", "1")]));
    let mut pages = vec![];
    while let Some(params) = fetch.next_request() {
        let page = params.iter().find(|(k, _)| k == "page").unwrap().1.clone();
        pages.push(page.clone());
        // later pages announce another count, which is not read
        let count = if page == "1" { 12 } else { 2 };
        fetch.receive(search_page(0, count, vec![product(&page, "P")]));
    }
    let expected: Vec<String> = (1..=12).map(|p| p.to_string()).collect();
    assert_eq!(pages, expected);
    assert_eq!(fetch.into_products().len(), 12);
}

#[test]
fn products_of_a_page_without_products() {
    assert!(extract_products(obj(vec![("count", num(0))])).is_empty());
    assert!(extract_products(obj(vec![("products", text("none"))])).is_empty());
    assert_eq!(extract_products(search_page(1, 1, vec![product("1", "A")])), vec![product("1", "A")]);
}
