use vstd::prelude::*;

use crate::cli::ProductsCommand;
use crate::error::CliError;
use crate::json::{first_key_at, lemma_first_key_unique, JsonNumber, Members, as_u64, get, well_formed, items_model, lemma_array_model, Json, JsonModel};
use crate::text::{decimal, decimal_string};

verus! {

/// Query parameters, as `(name, value)` pairs in the order they are sent.
pub type Params = Seq<(Seq<char>, Seq<char>)>;

/// The model of a list of query parameters.
pub open spec fn params_model(params: Seq<(String, String)>) -> Params {
    Seq::new(params.len(), |i: int| (params[i].0@, params[i].1@))
}

// ---------------------------------------------------------------- products get

/// The request path that looks a barcode up.
pub open spec fn product_path(barcode: Seq<char>) -> Seq<char> {
    "/api/v2/product/"@ + barcode + ".json"@
}

/// The lookup's `status` member as an unsigned integer, 0 where it is
/// missing or not one.
pub open spec fn product_status(body: JsonModel) -> u64 {
    match get(body, "status"@) {
        Some(v) => match as_u64(v) {
            Some(n) => n,
            None => 0,
        },
        None => 0,
    }
}

/// Whether a lookup found its product depends on its `status` member alone:
/// the status is that member where it is an unsigned integer, whatever else
/// the answer holds, and 0 (not found) where it is missing or anything else.
pub proof fn law_product_status(body: JsonModel)
    ensures
        get(body, "status"@) matches Some(JsonModel::Number(JsonNumber::PosInt(n))) ==> product_status(
            body,
        ) == n,
        !(get(body, "status"@) matches Some(JsonModel::Number(JsonNumber::PosInt(_)))) ==> product_status(
            body,
        ) == 0,
{
}

/// A lookup whose status is not 0 gives its `product` member as it came,
/// whatever that member holds; one with status 0 or none gives nothing.
pub proof fn law_product_as_answered(members: Members, s: int, p: int, n: u64)
    requires
        first_key_at(members, "status"@, s),
        members[s].1 == JsonModel::Number(JsonNumber::PosInt(n)),
        n != 0,
        first_key_at(members, "product"@, p),
    ensures
        product_status(JsonModel::Object(members)) == n,
        get(JsonModel::Object(members), "product"@) == Some(members[p].1),
{
    lemma_first_key_unique(members, "status"@, s);
    lemma_first_key_unique(members, "product"@, p);
}

/// The request path for `products get <barcode>`.
pub fn get_path(barcode: &String) -> (r: String)
    ensures
        r@ == product_path(barcode@),
{
    let mut path = String::from_str("/api/v2/product/");
    path.append(barcode.as_str());
    path.append(".json");
    path
}

/// What `products get` prints of the lookup's answer: the product itself,
/// without the `status` and `status_verbose` around it. Status 0 (or none)
/// means the product was not found; status found but no `product` member
/// means there is no product data.
pub fn get_result(barcode: &String, body: Json) -> (r: Result<Json, CliError>)
    ensures
        product_status(body.model()) == 0 ==> r == Err::<Json, CliError>(
            CliError::ProductNotFound { barcode: *barcode },
        ),
        product_status(body.model()) != 0 ==> match get(body.model(), "product"@) {
            Some(p) => r matches Ok(v) && v.model() == p && (well_formed(body.model()) ==> well_formed(
                v.model(),
            )),
            None => r == Err::<Json, CliError>(CliError::NoProductData { barcode: *barcode }),
        },
        get(body.model(), "status"@) matches Some(JsonModel::Number(JsonNumber::PosInt(n))) ==> (n
            != 0 ==> (get(body.model(), "product"@) matches Some(p) ==> (r matches Ok(v) && v.model()
            == p))),
        !(get(body.model(), "status"@) matches Some(JsonModel::Number(JsonNumber::PosInt(_))))
            ==> r == Err::<Json, CliError>(CliError::ProductNotFound { barcode: *barcode }),
{
    let status_key = String::from_str("status");
    let status = match body.get(&status_key) {
        Some(v) => match v.as_u64() {
            Some(n) => n,
            None => 0,
        },
        None => 0,
    };
    if status == 0 {
        return Err(CliError::ProductNotFound { barcode: barcode.clone() });
    }
    let product_key = String::from_str("product");
    match body.take_member(&product_key) {
        Some(p) => Ok(p),
        None => Err(CliError::NoProductData { barcode: barcode.clone() }),
    }
}

// ------------------------------------------------------------- products search

/// One parameter where the flag was given, none where it was not.
pub open spec fn opt_param(name: Seq<char>, value: Option<String>) -> Params {
    match value {
        Some(v) => seq![(name, v@)],
        None => Seq::empty(),
    }
}

/// The three v1 parameters that express filter number `n`: its tag type, the
/// `contains` relation, and its tag.
pub open spec fn tag_triplet(n: nat, filter: (Seq<char>, Seq<char>)) -> Params {
    seq![
        ("tagtype_"@ + decimal(n), filter.0),
        ("tag_contains_"@ + decimal(n), "contains"@),
        ("tag_"@ + decimal(n), filter.1),
    ]
}

/// The v1 parameters of a list of `(tag type, tag)` filters, numbered from 0.
pub open spec fn tag_triplets(filters: Params) -> Params
    decreases filters.len(),
{
    if filters.len() == 0 {
        Seq::empty()
    } else {
        tag_triplets(filters.drop_last()) + tag_triplet((filters.len() - 1) as nat, filters.last())
    }
}

/// Each filter flag of a full-text search becomes one triplet of v1
/// parameters, `tagtype_N`, `tag_contains_N` (always `contains`) and `tag_N`,
/// with `N` counting the flags from 0 in their order.
pub proof fn law_one_triplet_per_filter(filters: Params)
    ensures
        tag_triplets(filters).len() == 3 * filters.len(),
        forall|k: int|
            0 <= k < filters.len() ==> #[trigger] tag_triplets(filters).subrange(3 * k, 3 * k + 3)
                == tag_triplet(k as nat, filters[k]),
    decreases filters.len(),
{
    if filters.len() > 0 {
        let rest = filters.drop_last();
        let n = filters.len() - 1;
        law_one_triplet_per_filter(rest);
        let all = tag_triplets(filters);
        let head = tag_triplets(rest);
        let last = tag_triplet(n as nat, filters.last());
        assert(all == head + last);
        assert forall|k: int| 0 <= k < filters.len() implies #[trigger] all.subrange(3 * k, 3 * k + 3)
            == tag_triplet(k as nat, filters[k]) by {
            if k < n {
                assert(rest[k] == filters[k]);
                assert(all.subrange(3 * k, 3 * k + 3) =~= head.subrange(3 * k, 3 * k + 3));
            } else {
                assert(all.subrange(3 * k, 3 * k + 3) =~= last);
            }
        }
    }
}

/// The request path of a search: full-text search goes to v1, a search by
/// filters alone to v2.
pub open spec fn search_endpoint(query: Option<String>) -> Seq<char> {
    match query {
        Some(_) => "/cgi/search.pl"@,
        None => "/api/v2/search"@,
    }
}

/// The parameters of a search.
pub open spec fn search_params(command: ProductsCommand) -> Params {
    match command {
        ProductsCommand::Search {
            query,
            category,
            nutrition_grade,
            ecoscore_grade,
            label,
            ingredient,
            allergen,
            sort_by,
            page,
            page_size,
            all,
        } => match query {
            Some(q) => seq![
                ("search_terms"@, q@),
                ("json"@, "1"@),
                ("page"@, decimal(page as nat)),
                ("page_size"@, decimal(page_size as nat)),
            ] + opt_param("sort_by"@, sort_by) + tag_triplets(
                opt_param("categories"@, category) + opt_param("nutrition_grades"@, nutrition_grade)
                    + opt_param("ecoscore_grade"@, ecoscore_grade) + opt_param("labels"@, label)
                    + opt_param("ingredients"@, ingredient) + opt_param("allergens"@, allergen),
            ),
            None => seq![("page"@, decimal(page as nat)), ("page_size"@, decimal(page_size as nat))]
                + opt_param("categories_tags"@, category) + opt_param(
                "nutrition_grades_tags"@,
                nutrition_grade,
            ) + opt_param("ecoscore_tags"@, ecoscore_grade) + opt_param("labels_tags"@, label)
                + opt_param("ingredients_tags"@, ingredient) + opt_param("allergens_tags"@, allergen)
                + opt_param("sort_by"@, sort_by),
        },
        _ => Seq::empty(),
    }
}

/// One where a flag was given, none where it was not.
pub open spec fn given(flag: Option<String>) -> nat {
    if flag is Some {
        1
    } else {
        0
    }
}

/// `params` carry a v1 filter with tag type `tagtype` and tag `tag`: the
/// three parameters `tagtype_N`, `tag_contains_N` (`contains`) and `tag_N`
/// for one number `N`.
pub open spec fn has_v1_filter(params: Params, tagtype: Seq<char>, tag: Seq<char>) -> bool {
    exists|n: nat|
        params.contains(("tagtype_"@ + decimal(n), tagtype)) && params.contains(
            ("tag_contains_"@ + decimal(n), "contains"@),
        ) && #[trigger] params.contains(("tag_"@ + decimal(n), tag))
}

/// Filter number `k` of a list lies among its v1 parameters.
#[verifier::spinoff_prover]
proof fn lemma_filter_in_triplets(filters: Params, k: int)
    requires
        0 <= k < filters.len(),
    ensures
        has_v1_filter(tag_triplets(filters), filters[k].0, filters[k].1),
{
    law_one_triplet_per_filter(filters);
    let t = tag_triplets(filters);
    let sub = t.subrange(3 * k, 3 * k + 3);
    assert(sub == tag_triplet(k as nat, filters[k]));
    assert(t[3 * k] == sub[0]);
    assert(t[3 * k + 1] == sub[1]);
    assert(t[3 * k + 2] == sub[2]);
    let n = k as nat;
    assert(t.contains(("tagtype_"@ + decimal(n), filters[k].0)));
    assert(t.contains(("tag_contains_"@ + decimal(n), "contains"@)));
    assert(t.contains(("tag_"@ + decimal(n), filters[k].1)));
}

/// What `prefix` carries, `prefix + rest` carries too.
proof fn lemma_v1_filter_extends(prefix: Params, rest: Params, tagtype: Seq<char>, tag: Seq<char>)
    requires
        has_v1_filter(rest, tagtype, tag),
    ensures
        has_v1_filter(prefix + rest, tagtype, tag),
{
    let n = choose|n: nat|
        rest.contains(("tagtype_"@ + decimal(n), tagtype)) && rest.contains(
            ("tag_contains_"@ + decimal(n), "contains"@),
        ) && #[trigger] rest.contains(("tag_"@ + decimal(n), tag));
    let all = prefix + rest;
    let a = choose|i: int| 0 <= i < rest.len() && rest[i] == ("tagtype_"@ + decimal(n), tagtype);
    let b = choose|i: int| 0 <= i < rest.len() && rest[i] == ("tag_contains_"@ + decimal(n), "contains"@);
    let c = choose|i: int| 0 <= i < rest.len() && rest[i] == ("tag_"@ + decimal(n), tag);
    assert(all[prefix.len() + a] == rest[a]);
    assert(all[prefix.len() + b] == rest[b]);
    assert(all[prefix.len() + c] == rest[c]);
    assert(all.contains(("tagtype_"@ + decimal(n), tagtype)));
    assert(all.contains(("tag_contains_"@ + decimal(n), "contains"@)));
    assert(all.contains(("tag_"@ + decimal(n), tag)));
}

/// A full-text search (`--query`) asks `/cgi/search.pl` for JSON with its
/// search terms, page and page size (and sort, where given), and expresses
/// each filter flag as a v1 filter whose tag type the flag fixes: `--category`
/// `categories`, `--nutrition-grade` `nutrition_grades`, `--ecoscore-grade`
/// `ecoscore_grade`, `--label` `labels`, `--ingredient` `ingredients`,
/// `--allergen` `allergens`. It sends nothing else.
pub proof fn law_full_text_search(command: ProductsCommand)
    requires
        command is Search,
        command->query is Some,
    ensures
        search_endpoint(command->query) == "/cgi/search.pl"@,
        ({
            let p = search_params(command);
            &&& p.contains(("search_terms"@, command->query->0@))
            &&& p.contains(("json"@, "1"@))
            &&& p.contains(("page"@, decimal(command->page as nat)))
            &&& p.contains(("page_size"@, decimal(command->page_size as nat)))
            &&& (command->sort_by matches Some(s) ==> p.contains(("sort_by"@, s@)))
            &&& (command->category matches Some(v) ==> has_v1_filter(p, "categories"@, v@))
            &&& (command->nutrition_grade matches Some(v) ==> has_v1_filter(p, "nutrition_grades"@, v@))
            &&& (command->ecoscore_grade matches Some(v) ==> has_v1_filter(p, "ecoscore_grade"@, v@))
            &&& (command->label matches Some(v) ==> has_v1_filter(p, "labels"@, v@))
            &&& (command->ingredient matches Some(v) ==> has_v1_filter(p, "ingredients"@, v@))
            &&& (command->allergen matches Some(v) ==> has_v1_filter(p, "allergens"@, v@))
            &&& p.len() == 4 + given(command->sort_by) + 3 * (given(command->category) + given(
                command->nutrition_grade,
            ) + given(command->ecoscore_grade) + given(command->label) + given(command->ingredient)
                + given(command->allergen))
        }),
{
    let p = search_params(command);
    let head = seq![
        ("search_terms"@, command->query->0@),
        ("json"@, "1"@),
        ("page"@, decimal(command->page as nat)),
        ("page_size"@, decimal(command->page_size as nat)),
    ] + opt_param("sort_by"@, command->sort_by);
    let f1 = opt_param("categories"@, command->category);
    let f2 = opt_param("nutrition_grades"@, command->nutrition_grade);
    let f3 = opt_param("ecoscore_grade"@, command->ecoscore_grade);
    let f4 = opt_param("labels"@, command->label);
    let f5 = opt_param("ingredients"@, command->ingredient);
    let f6 = opt_param("allergens"@, command->allergen);
    let filters = f1 + f2 + f3 + f4 + f5 + f6;
    assert(p == head + tag_triplets(filters));
    law_one_triplet_per_filter(filters);
    assert(p[0] == head[0] && p[1] == head[1] && p[2] == head[2] && p[3] == head[3]);
    assert(p.contains(p[0]) && p.contains(p[1]) && p.contains(p[2]) && p.contains(p[3]));
    if let Some(s) = command->sort_by {
        assert(p[4] == head[4]);
        assert(p.contains(p[4]));
    }
    let l1 = f1.len() as int;
    let l2 = l1 + f2.len();
    let l3 = l2 + f3.len();
    let l4 = l3 + f4.len();
    let l5 = l4 + f5.len();
    if command->category is Some {
        assert(filters[0] == f1[0]);
        lemma_filter_in_triplets(filters, 0);
        lemma_v1_filter_extends(head, tag_triplets(filters), filters[0].0, filters[0].1);
    }
    if command->nutrition_grade is Some {
        assert(filters[l1] == f2[0]);
        lemma_filter_in_triplets(filters, l1);
        lemma_v1_filter_extends(head, tag_triplets(filters), filters[l1].0, filters[l1].1);
    }
    if command->ecoscore_grade is Some {
        assert(filters[l2] == f3[0]);
        lemma_filter_in_triplets(filters, l2);
        lemma_v1_filter_extends(head, tag_triplets(filters), filters[l2].0, filters[l2].1);
    }
    if command->label is Some {
        assert(filters[l3] == f4[0]);
        lemma_filter_in_triplets(filters, l3);
        lemma_v1_filter_extends(head, tag_triplets(filters), filters[l3].0, filters[l3].1);
    }
    if command->ingredient is Some {
        assert(filters[l4] == f5[0]);
        lemma_filter_in_triplets(filters, l4);
        lemma_v1_filter_extends(head, tag_triplets(filters), filters[l4].0, filters[l4].1);
    }
    if command->allergen is Some {
        assert(filters[l5] == f6[0]);
        lemma_filter_in_triplets(filters, l5);
        lemma_v1_filter_extends(head, tag_triplets(filters), filters[l5].0, filters[l5].1);
    }
}

/// A search by filters alone asks `/api/v2/search` for its page and page
/// size, with each filter flag as the v2 parameter that the flag fixes:
/// `--category` `categories_tags`, `--nutrition-grade`
/// `nutrition_grades_tags`, `--ecoscore-grade` `ecoscore_tags`, `--label`
/// `labels_tags`, `--ingredient` `ingredients_tags`, `--allergen`
/// `allergens_tags`, and `sort_by` where given. It sends nothing else.
pub proof fn law_filter_search(command: ProductsCommand)
    requires
        command is Search,
        command->query is None,
    ensures
        search_endpoint(command->query) == "/api/v2/search"@,
        ({
            let p = search_params(command);
            &&& p.contains(("page"@, decimal(command->page as nat)))
            &&& p.contains(("page_size"@, decimal(command->page_size as nat)))
            &&& (command->category matches Some(v) ==> p.contains(("categories_tags"@, v@)))
            &&& (command->nutrition_grade matches Some(v) ==> p.contains(("nutrition_grades_tags"@, v@)))
            &&& (command->ecoscore_grade matches Some(v) ==> p.contains(("ecoscore_tags"@, v@)))
            &&& (command->label matches Some(v) ==> p.contains(("labels_tags"@, v@)))
            &&& (command->ingredient matches Some(v) ==> p.contains(("ingredients_tags"@, v@)))
            &&& (command->allergen matches Some(v) ==> p.contains(("allergens_tags"@, v@)))
            &&& (command->sort_by matches Some(s) ==> p.contains(("sort_by"@, s@)))
            &&& p.len() == 2 + given(command->category) + given(command->nutrition_grade) + given(
                command->ecoscore_grade,
            ) + given(command->label) + given(command->ingredient) + given(command->allergen) + given(
                command->sort_by,
            )
        }),
{
    let p = search_params(command);
    let o1 = opt_param("categories_tags"@, command->category);
    let o2 = opt_param("nutrition_grades_tags"@, command->nutrition_grade);
    let o3 = opt_param("ecoscore_tags"@, command->ecoscore_grade);
    let o4 = opt_param("labels_tags"@, command->label);
    let o5 = opt_param("ingredients_tags"@, command->ingredient);
    let o6 = opt_param("allergens_tags"@, command->allergen);
    let o7 = opt_param("sort_by"@, command->sort_by);
    let head = seq![("page"@, decimal(command->page as nat)), ("page_size"@, decimal(command->page_size as nat))];
    assert(p == head + o1 + o2 + o3 + o4 + o5 + o6 + o7);
    assert(p.contains(p[0]) && p.contains(p[1]));
    let l1 = 2 + o1.len() as int;
    let l2 = l1 + o2.len();
    let l3 = l2 + o3.len();
    let l4 = l3 + o4.len();
    let l5 = l4 + o5.len();
    let l6 = l5 + o6.len();
    if command->category is Some {
        assert(p[2] == o1[0]);
        assert(p.contains(p[2]));
    }
    if command->nutrition_grade is Some {
        assert(p[l1] == o2[0]);
        assert(p.contains(p[l1]));
    }
    if command->ecoscore_grade is Some {
        assert(p[l2] == o3[0]);
        assert(p.contains(p[l2]));
    }
    if command->label is Some {
        assert(p[l3] == o4[0]);
        assert(p.contains(p[l3]));
    }
    if command->ingredient is Some {
        assert(p[l4] == o5[0]);
        assert(p.contains(p[l4]));
    }
    if command->allergen is Some {
        assert(p[l5] == o6[0]);
        assert(p.contains(p[l5]));
    }
    if command->sort_by is Some {
        assert(p[l6] == o7[0]);
        assert(p.contains(p[l6]));
    }
}

/// The request that a search makes, or the first of them with `--all`.
pub struct SearchPlan {
    /// The request path.
    pub endpoint: String,
    /// The query parameters.
    pub params: Vec<(String, String)>,
    /// Whether all pages are fetched.
    pub fetch_all: bool,
}

fn push_param(params: &mut Vec<(String, String)>, name: &str, value: &str)
    ensures
        params_model(final(params)@) == params_model(old(params)@).push((name@, value@)),
{
    params.push((String::from_str(name), String::from_str(value)));
    assert(params_model(params@) =~= params_model(old(params)@).push((name@, value@)));
}

fn push_opt_param(params: &mut Vec<(String, String)>, name: &str, value: &Option<String>)
    ensures
        params_model(final(params)@) == params_model(old(params)@) + opt_param(name@, *value),
{
    match value {
        Some(v) => push_param(params, name, v.as_str()),
        None => {
            assert(params_model(params@) =~= params_model(old(params)@) + opt_param(name@, *value));
        },
    }
}

/// Appends the v1 parameters of `filters`, numbered from 0.
fn push_tag_triplets(params: &mut Vec<(String, String)>, filters: &Vec<(String, String)>)
    ensures
        params_model(final(params)@) == params_model(old(params)@) + tag_triplets(
            params_model(filters@),
        ),
{
    let ghost start = params_model(params@);
    let ghost fs = params_model(filters@);
    let mut k: usize = 0;
    assert(fs.take(0) =~= Seq::<(Seq<char>, Seq<char>)>::empty());
    assert(start + tag_triplets(fs.take(0)) =~= start);
    while k < filters.len()
        invariant
            0 <= k <= filters.len(),
            fs == params_model(filters@),
            params_model(params@) == start + tag_triplets(fs.take(k as int)),
        decreases filters.len() - k,
    {
        let n = decimal_string(k as u64);
        let mut tagtype = String::from_str("tagtype_");
        tagtype.append(n.as_str());
        let mut contains = String::from_str("tag_contains_");
        contains.append(n.as_str());
        let mut tag = String::from_str("tag_");
        tag.append(n.as_str());
        push_param(params, tagtype.as_str(), filters[k].0.as_str());
        push_param(params, contains.as_str(), "contains");
        push_param(params, tag.as_str(), filters[k].1.as_str());
        proof {
            let next = fs.take(k + 1);
            assert(next.drop_last() =~= fs.take(k as int));
            assert(next.last() == fs[k as int]);
            assert(params_model(params@) =~= start + tag_triplets(next));
        }
        k = k + 1;
    }
    assert(fs.take(filters.len() as int) =~= fs);
}

/// The request of `products search`: where it goes and what it asks.
pub fn search_plan(command: &ProductsCommand) -> (r: SearchPlan)
    requires
        command is Search,
    ensures
        r.endpoint@ == search_endpoint(command->query),
        params_model(r.params@) == search_params(*command),
        r.fetch_all == command->all,
{
    match command {
        ProductsCommand::Search {
            query,
            category,
            nutrition_grade,
            ecoscore_grade,
            label,
            ingredient,
            allergen,
            sort_by,
            page,
            page_size,
            all,
        } => {
            let page_str = decimal_string(*page as u64);
            let page_size_str = decimal_string(*page_size as u64);
            let mut params: Vec<(String, String)> = Vec::new();
            match query {
                Some(q) => {
                    push_param(&mut params, "search_terms", q.as_str());
                    push_param(&mut params, "json", "1");
                    push_param(&mut params, "page", page_str.as_str());
                    push_param(&mut params, "page_size", page_size_str.as_str());
                    push_opt_param(&mut params, "sort_by", sort_by);
                    let mut filters: Vec<(String, String)> = Vec::new();
                    push_opt_param(&mut filters, "categories", category);
                    push_opt_param(&mut filters, "nutrition_grades", nutrition_grade);
                    push_opt_param(&mut filters, "ecoscore_grade", ecoscore_grade);
                    push_opt_param(&mut filters, "labels", label);
                    push_opt_param(&mut filters, "ingredients", ingredient);
                    push_opt_param(&mut filters, "allergens", allergen);
                    push_tag_triplets(&mut params, &filters);
                    proof {
                        reveal_strlit("1");
                        assert(params_model(params@) =~= search_params(*command));
                    }
                    SearchPlan {
                        endpoint: String::from_str("/cgi/search.pl"),
                        params,
                        fetch_all: *all,
                    }
                },
                None => {
                    push_param(&mut params, "page", page_str.as_str());
                    push_param(&mut params, "page_size", page_size_str.as_str());
                    push_opt_param(&mut params, "categories_tags", category);
                    push_opt_param(&mut params, "nutrition_grades_tags", nutrition_grade);
                    push_opt_param(&mut params, "ecoscore_tags", ecoscore_grade);
                    push_opt_param(&mut params, "labels_tags", label);
                    push_opt_param(&mut params, "ingredients_tags", ingredient);
                    push_opt_param(&mut params, "allergens_tags", allergen);
                    push_opt_param(&mut params, "sort_by", sort_by);
                    proof {
                        assert(params_model(params@) =~= search_params(*command));
                    }
                    SearchPlan {
                        endpoint: String::from_str("/api/v2/search"),
                        params,
                        fetch_all: *all,
                    }
                },
            }
        },
        ProductsCommand::Get { .. } => {
            proof {
                assert(false);
            }
            SearchPlan { endpoint: String::new(), params: Vec::new(), fetch_all: false }
        },
    }
}

// ------------------------------------------------------------ all the pages

/// The products of a search page: its `products` member where that is an
/// array, and none otherwise.
pub open spec fn page_products(body: JsonModel) -> Seq<JsonModel> {
    match get(body, "products"@) {
        Some(JsonModel::Array(items)) => items,
        _ => Seq::empty(),
    }
}

/// The number of pages that a first search page announces: its `page_count`
/// member as an unsigned integer, 1 where that is missing or not one.
pub open spec fn announced_page_count(body: JsonModel) -> nat {
    match get(body, "page_count"@) {
        Some(v) => match as_u64(v) {
            Some(n) => n as nat,
            None => 1,
        },
        None => 1,
    }
}

/// Whether a parameter is other than the page number.
pub open spec fn not_page() -> spec_fn((Seq<char>, Seq<char>)) -> bool {
    |p: (Seq<char>, Seq<char>)| p.0 != "page"@
}

/// The parameters without the page number.
pub open spec fn without_page(params: Params) -> Params {
    params.filter(not_page())
}

/// Takes the products out of a search page; see [`page_products`].
pub fn extract_products(body: Json) -> (r: Vec<Json>)
    ensures
        items_model(r@) == page_products(body.model()),
        well_formed(body.model()) ==> forall|i: int|
            0 <= i < r@.len() ==> well_formed(#[trigger] items_model(r@)[i]),
{
    let key = String::from_str("products");
    let ghost wf = well_formed(body.model());
    match body.take_member(&key) {
        Some(Json::Array(items)) => {
            proof {
                lemma_array_model(items);
                if wf {
                    let m = JsonModel::Array(items_model(items@));
                    assert(well_formed(m));
                    assert(m matches JsonModel::Array(s) && forall|i: int|
                        0 <= i < s.len() ==> well_formed(#[trigger] s[i]));
                }
            }
            items
        },
        _ => {
            let r: Vec<Json> = Vec::new();
            assert(items_model(r@) =~= Seq::<JsonModel>::empty());
            r
        },
    }
}

/// Where fetching all the pages of a search stands.
pub struct PageFetch {
    base: Vec<(String, String)>,
    next_page: Option<u64>,
    page_count: u64,
    products: Vec<Json>,
}

/// The model of a [`PageFetch`].
pub struct PageFetchModel {
    /// The parameters of every request, but for the page number.
    pub base: Params,
    /// The page to request next; none when all have been fetched.
    pub next_page: Option<nat>,
    /// The number of pages, as the first page announced it (1 before then).
    pub page_count: nat,
    /// The products of the pages fetched so far, in page order.
    pub products: Seq<JsonModel>,
}

impl View for PageFetch {
    type V = PageFetchModel;

    closed spec fn view(&self) -> PageFetchModel {
        PageFetchModel {
            base: params_model(self.base@),
            next_page: match self.next_page {
                Some(p) => Some(p as nat),
                None => None,
            },
            page_count: self.page_count as nat,
            products: items_model(self.products@),
        }
    }
}

/// The state before the first page is fetched.
pub open spec fn fetch_start(params: Params) -> PageFetchModel {
    PageFetchModel {
        base: without_page(params),
        next_page: Some(1),
        page_count: 1,
        products: Seq::empty(),
    }
}

/// The parameters of the request for page `page`.
pub open spec fn page_request(base: Params, page: nat) -> Params {
    base.push(("page"@, decimal(page)))
}

/// The state after the answer `body` to the request for the next page: the
/// first page sets the number of pages; every page adds its products; the
/// pages after the first are requested up to that number.
pub open spec fn fetch_step(m: PageFetchModel, body: JsonModel) -> PageFetchModel {
    let page = m.next_page->Some_0;
    let count = if page == 1 {
        announced_page_count(body)
    } else {
        m.page_count
    };
    PageFetchModel {
        base: m.base,
        next_page: if page < count {
            Some(page + 1)
        } else {
            None
        },
        page_count: count,
        products: m.products + page_products(body),
    }
}

/// The state after the answers `bodies`, in order, from `m`.
pub open spec fn fetch_run(m: PageFetchModel, bodies: Seq<JsonModel>) -> PageFetchModel
    decreases bodies.len(),
{
    if bodies.len() == 0 {
        m
    } else {
        fetch_step(fetch_run(m, bodies.drop_last()), bodies.last())
    }
}

/// The products of the pages `bodies`, one page after another.
pub open spec fn all_products(bodies: Seq<JsonModel>) -> Seq<JsonModel>
    decreases bodies.len(),
{
    if bodies.len() == 0 {
        Seq::empty()
    } else {
        all_products(bodies.drop_last()) + page_products(bodies.last())
    }
}

/// The number of pages that `--all` fetches, after the first page `first`:
/// the number it announces, and at least that first page.
pub open spec fn pages_to_fetch(first: JsonModel) -> nat {
    if announced_page_count(first) >= 1 {
        announced_page_count(first)
    } else {
        1
    }
}

/// Fetching all the pages asks for pages 1, 2, ... in turn, up to the number
/// of pages that the first one announces (at least one), always with the
/// search's parameters but for the page number; after the answer to page `k`
/// the products held are those of pages 1 to `k`, in page order, and the next
/// request is for page `k + 1` until the last page has come.
pub proof fn law_fetch_all_pages(params: Params, bodies: Seq<JsonModel>)
    requires
        1 <= bodies.len() <= pages_to_fetch(bodies[0]),
    ensures
        ({
            let m = fetch_run(fetch_start(params), bodies);
            &&& m.base == without_page(params)
            &&& m.page_count == announced_page_count(bodies[0])
            &&& m.products == all_products(bodies)
            &&& m.next_page == if bodies.len() < pages_to_fetch(bodies[0]) {
                Some(bodies.len() + 1)
            } else {
                None::<nat>
            }
        }),
    decreases bodies.len(),
{
    let start = fetch_start(params);
    let rest = bodies.drop_last();
    if bodies.len() == 1 {
        assert(rest.len() == 0);
        assert(fetch_run(start, rest) == start);
        assert(all_products(rest) =~= Seq::<JsonModel>::empty());
        assert(start.products + page_products(bodies.last()) =~= page_products(bodies.last()));
    } else {
        assert(rest[0] == bodies[0]);
        law_fetch_all_pages(params, rest);
    }
}

/// Every page request of `--all` carries all the search's parameters but its
/// page number, and the number of its own page; nothing else.
pub proof fn law_page_request_keeps_search(params: Params, page: nat)
    ensures
        ({
            let request = page_request(fetch_start(params).base, page);
            &&& forall|i: int|
                0 <= i < params.len() && params[i].0 != "page"@ ==> request.contains(
                    #[trigger] params[i],
                )
            &&& request.contains(("page"@, decimal(page)))
            &&& forall|x: (Seq<char>, Seq<char>)|
                request.contains(x) ==> (x == ("page"@, decimal(page)) || (params.contains(x)
                    && x.0 != "page"@))
        }),
{
    let base = fetch_start(params).base;
    let request = page_request(base, page);
    let pred = not_page();
    assert forall|i: int| 0 <= i < params.len() && params[i].0 != "page"@ implies request.contains(
        #[trigger] params[i],
    ) by {
        params.lemma_filter_contains(pred, i);
        let j = choose|j: int| 0 <= j < base.len() && base[j] == params[i];
        assert(request[j] == base[j]);
    }
    assert(request[base.len() as int] == ("page"@, decimal(page)));
    assert forall|x: (Seq<char>, Seq<char>)| request.contains(x) implies (x == ("page"@, decimal(page))
        || (params.contains(x) && x.0 != "page"@)) by {
        let j = choose|j: int| 0 <= j < request.len() && request[j] == x;
        if j < base.len() {
            assert(base[j] == x);
            assert(base.contains(x));
            params.lemma_filter_contains_rev(pred, x);
            params.lemma_filter_pred(pred, j);
        }
    }
}

impl PageFetch {
    /// Starts fetching all the pages of a search with parameters `params`;
    /// the page number among them is replaced by that of each page.
    pub fn new(params: &Vec<(String, String)>) -> (r: PageFetch)
        ensures
            r@ == fetch_start(params_model(params@)),
            forall|i: int|
                0 <= i < params@.len() && params@[i].0@ != "page"@ ==> r@.base.contains(
                    #[trigger] params_model(params@)[i],
                ),
            forall|x: (Seq<char>, Seq<char>)|
                r@.base.contains(x) ==> params_model(params@).contains(x) && x.0 != "page"@,
    {
        let ghost all = params_model(params@);
        let page_key = String::from_str("page");
        let mut base: Vec<(String, String)> = Vec::new();
        let mut i: usize = 0;
        while i < params.len()
            invariant
                0 <= i <= params.len(),
                all == params_model(params@),
                page_key@ == "page"@,
                params_model(base@) == without_page(all.take(i as int)),
            decreases params.len() - i,
        {
            let ghost before = base@;
            proof {
                assert(all.take(i + 1) =~= all.take(i as int).push(all[i as int]));
                all.take(i as int).lemma_filter_push(all[i as int], not_page());
            }
            if !(params[i].0 == page_key) {
                let name = params[i].0.clone();
                let value = params[i].1.clone();
                base.push((name, value));
                assert(not_page()(all[i as int]));
                assert(params_model(base@) =~= params_model(before).push(all[i as int]));
            } else {
                assert(!not_page()(all[i as int]));
            }
            i = i + 1;
        }
        proof {
            assert(all.take(params.len() as int) =~= all);
        }
        let products: Vec<Json> = Vec::new();
        let r = PageFetch { base, next_page: Some(1), page_count: 1, products };
        proof {
            law_page_request_keeps_search(all, 1);
            let request = page_request(r@.base, 1);
            assert forall|i: int|
                0 <= i < params@.len() && params@[i].0@ != "page"@ implies r@.base.contains(
                #[trigger] params_model(params@)[i],
            ) by {
                assert(all[i] == (params@[i].0@, params@[i].1@));
                assert(request.contains(all[i]));
                let j = choose|j: int| 0 <= j < request.len() && request[j] == all[i];
                if j == r@.base.len() {
                    assert(all[i].0 == "page"@);
                } else {
                    assert(r@.base[j] == all[i]);
                }
            }
            assert forall|x: (Seq<char>, Seq<char>)| r@.base.contains(x) implies all.contains(x)
                && x.0 != "page"@ by {
                let j = choose|j: int| 0 <= j < r@.base.len() && r@.base[j] == x;
                assert(request[j] == x);
                assert(request.contains(x));
                if x == ("page"@, decimal(1)) {
                    all.lemma_filter_pred(not_page(), j);
                }
            }
        }
        assert(r@.products =~= Seq::<JsonModel>::empty());
        r
    }

    /// The parameters of the next request, or none when all pages have been
    /// fetched.
    pub fn next_request(&self) -> (r: Option<Vec<(String, String)>>)
        ensures
            match self@.next_page {
                Some(page) => r matches Some(params) && params_model(params@) == page_request(
                    self@.base,
                    page,
                ),
                None => r is None,
            },
    {
        match self.next_page {
            Some(page) => {
                let mut params: Vec<(String, String)> = Vec::new();
                let mut i: usize = 0;
                while i < self.base.len()
                    invariant
                        0 <= i <= self.base.len(),
                        params_model(params@) == params_model(self.base@).take(i as int),
                    decreases self.base.len() - i,
                {
                    let ghost before = params@;
                    let name = self.base[i].0.clone();
                    let value = self.base[i].1.clone();
                    params.push((name, value));
                    proof {
                        let b = params_model(self.base@);
                        assert(b.take(i + 1) =~= b.take(i as int).push(b[i as int]));
                        assert(params_model(params@) =~= params_model(before).push(b[i as int]));
                    }
                    i = i + 1;
                }
                assert(params_model(self.base@).take(self.base.len() as int) =~= params_model(
                    self.base@,
                ));
                let n = decimal_string(page);
                push_param(&mut params, "page", n.as_str());
                Some(params)
            },
            None => None,
        }
    }

    /// Takes in the answer to the last request; see [`fetch_step`].
    pub fn receive(&mut self, body: Json)
        requires
            old(self)@.next_page is Some,
        ensures
            final(self)@ == fetch_step(old(self)@, body.model()),
    {
        let page = match self.next_page {
            Some(p) => p,
            None => 0,
        };
        if page == 1 {
            let key = String::from_str("page_count");
            self.page_count = match body.get(&key) {
                Some(v) => match v.as_u64() {
                    Some(n) => n,
                    None => 1,
                },
                None => 1,
            };
        }
        let ghost before = self.products@;
        let mut items = extract_products(body);
        let ghost added = items@;
        self.products.append(&mut items);
        proof {
            assert(items_model(self.products@) =~= items_model(before) + items_model(added));
        }
        self.next_page = if page < self.page_count {
            Some(page + 1)
        } else {
            None
        };
    }

    /// The products of all the pages fetched, in page order.
    pub fn into_products(self) -> (r: Vec<Json>)
        ensures
            items_model(r@) == self@.products,
    {
        self.products
    }
}

} // verus!
