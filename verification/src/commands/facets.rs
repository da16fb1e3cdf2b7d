use vstd::prelude::*;

use crate::error::{facet_types, valid_facet_types, CliError};
use crate::json::{
    first_key_at, get, lacks_key, lemma_first_key_unique, lemma_lacks_key, well_formed, Json, JsonModel,
    Members,
};

verus! {

/// The request path that lists a facet type.
pub open spec fn facet_path(facet_type: Seq<char>) -> Seq<char> {
    "/"@ + facet_type + ".json"@
}

/// What `facets list` prints of the API's answer: its `tags` member, or an
/// empty array where there is none. The count is dropped.
pub open spec fn facet_tags(body: JsonModel) -> JsonModel {
    match get(body, "tags"@) {
        Some(tags) => tags,
        None => JsonModel::Array(Seq::empty()),
    }
}

/// `facets list` prints the answer's `tags` member as it came, every entry
/// of it: for an answer that is an object whose (first) member named `tags`
/// is `t`, exactly `t`; for any other answer, an empty array.
pub proof fn law_facet_tags_as_answered(members: Members, i: int)
    requires
        first_key_at(members, "tags"@, i),
    ensures
        facet_tags(JsonModel::Object(members)) == members[i].1,
        members[i].1 matches JsonModel::Array(items) ==> facet_tags(JsonModel::Object(members))
            matches JsonModel::Array(printed) && printed.len() == items.len(),
{
    lemma_first_key_unique(members, "tags"@, i);
}

/// An answer without a `tags` member lists nothing.
pub proof fn law_facet_tags_missing(body: JsonModel)
    requires
        !(body is Object) || (body matches JsonModel::Object(members) && lacks_key(members, "tags"@)),
    ensures
        facet_tags(body) == JsonModel::Array(Seq::empty()),
{
    if let JsonModel::Object(members) = body {
        lemma_lacks_key(members, "tags"@);
    }
}

/// Whether `facet_type` is one that `facets list` accepts.
pub fn is_valid_facet_type(facet_type: &String) -> (r: bool)
    ensures
        r == valid_facet_types().contains(facet_type@),
{
    let valid = facet_types();
    let ghost all = valid@.map_values(|s: String| s@);
    let mut i: usize = 0;
    while i < valid.len()
        invariant
            0 <= i <= valid.len(),
            all == valid@.map_values(|s: String| s@),
            all == valid_facet_types(),
            forall|j: int| 0 <= j < i ==> all[j] != facet_type@,
        decreases valid.len() - i,
    {
        if valid[i] == *facet_type {
            assert(all[i as int] == facet_type@);
            return true;
        }
        i = i + 1;
    }
    false
}

/// The request path for `facets list <facet_type>`, or the error for a type
/// that is not one of the valid ones.
pub fn list_path(facet_type: &String) -> (r: Result<String, CliError>)
    ensures
        valid_facet_types().contains(facet_type@) ==> (r matches Ok(p) && p@ == facet_path(
            facet_type@,
        )),
        !valid_facet_types().contains(facet_type@) ==> r == Err::<String, CliError>(
            CliError::UnknownFacetType { facet_type: *facet_type },
        ),
{
    if !is_valid_facet_type(facet_type) {
        return Err(CliError::UnknownFacetType { facet_type: facet_type.clone() });
    }
    let mut path = String::from_str("/");
    path.append(facet_type.as_str());
    path.append(".json");
    Ok(path)
}

/// What `facets list` prints of the API's answer; see [`facet_tags`].
pub fn list_result(body: Json) -> (r: Json)
    ensures
        r.model() == facet_tags(body.model()),
        get(body.model(), "tags"@) matches Some(tags) ==> r.model() == tags,
        get(body.model(), "tags"@) is None ==> r.model() == JsonModel::Array(Seq::empty()),
        well_formed(body.model()) ==> well_formed(r.model()),
{
    let key = String::from_str("tags");
    match body.take_member(&key) {
        Some(tags) => tags,
        None => {
            let r = Json::Array(Vec::new());
            assert(r.model() matches JsonModel::Array(s) && s =~= Seq::<JsonModel>::empty());
            r
        },
    }
}

} // verus!
