use vstd::prelude::*;

use crate::json::{distinct_keys, well_formed, first_key_at, lemma_first_key_unique, find_key, items_model, key_position, lemma_array_model, lemma_object_model, pairs_model, Json, JsonModel, Members};

verus! {

/// How results are written: compact or pretty, and which fields to keep.
pub struct Output {
    force_compact: bool,
    fields: Vec<String>,
}

/// The model of an [`Output`].
pub struct OutputModel {
    pub force_compact: bool,
    pub fields: Seq<Seq<char>>,
}

impl View for Output {
    type V = OutputModel;

    closed spec fn view(&self) -> OutputModel {
        OutputModel {
            force_compact: self.force_compact,
            fields: self.fields@.map_values(|f: String| f@),
        }
    }
}

/// The members of `members` whose key is one of `fields`, in their order.
pub open spec fn keep_fields(fields: Seq<Seq<char>>, members: Members) -> Members {
    members.filter(|m: (Seq<char>, JsonModel)| fields.contains(m.0))
}

/// An object keeps only the members named in `fields`; any other value is
/// left as it is.
pub open spec fn filter_object(fields: Seq<Seq<char>>, v: JsonModel) -> JsonModel {
    match v {
        JsonModel::Object(members) => JsonModel::Object(keep_fields(fields, members)),
        _ => v,
    }
}

/// Each item filtered as an object.
pub open spec fn filter_items(fields: Seq<Seq<char>>, items: Seq<JsonModel>) -> Seq<JsonModel> {
    items.map_values(|x: JsonModel| filter_object(fields, x))
}

/// What `--fields` does to a result. With no fields, nothing. An object with a
/// `products` member that is an array (a search page) keeps all its other
/// members and has each product filtered. An array has each item filtered.
/// Any other object is filtered itself; any other value is left as it is.
pub open spec fn filter_fields(fields: Seq<Seq<char>>, v: JsonModel) -> JsonModel {
    if fields.len() == 0 {
        v
    } else {
        match v {
            JsonModel::Object(members) => match key_position(members, "products"@) {
                Some(i) => match members[i].1 {
                    JsonModel::Array(items) => JsonModel::Object(
                        members.update(i, (members[i].0, JsonModel::Array(filter_items(fields, items)))),
                    ),
                    _ => v,
                },
                None => filter_object(fields, v),
            },
            JsonModel::Array(items) => JsonModel::Array(filter_items(fields, items)),
            _ => v,
        }
    }
}


/// If some member is named `key`, a first such member exists.
proof fn lemma_first_key_exists(members: Members, key: Seq<char>, j: int)
    requires
        0 <= j < members.len(),
        members[j].0 == key,
    ensures
        key_position(members, key) is Some,
    decreases j,
{
    if exists|k: int| 0 <= k < j && members[k].0 == key {
        let k = choose|k: int| 0 <= k < j && members[k].0 == key;
        lemma_first_key_exists(members, key, k);
    } else {
        assert(first_key_at(members, key, j));
    }
}

/// Keeping the requested members twice keeps the same members as once.
proof fn lemma_keep_fields_idempotent(fields: Seq<Seq<char>>, members: Members)
    ensures
        keep_fields(fields, keep_fields(fields, members)) == keep_fields(fields, members),
    decreases members.len(),
{
    let pred = |m: (Seq<char>, JsonModel)| fields.contains(m.0);
    if members.len() == 0 {
        reveal(Seq::filter);
        assert(keep_fields(fields, members) =~= members);
    } else {
        let rest = members.drop_last();
        let last = members.last();
        assert(members =~= rest.push(last));
        lemma_keep_fields_idempotent(fields, rest);
        rest.lemma_filter_push(last, pred);
        if pred(last) {
            rest.filter(pred).lemma_filter_push(last, pred);
        }
    }
}

/// Filtering an object twice gives what filtering it once gives.
proof fn lemma_filter_object_idempotent(fields: Seq<Seq<char>>, v: JsonModel)
    ensures
        filter_object(fields, filter_object(fields, v)) == filter_object(fields, v),
{
    if let JsonModel::Object(members) = v {
        lemma_keep_fields_idempotent(fields, members);
    }
}

/// Filtering items twice gives what filtering them once gives.
proof fn lemma_filter_items_idempotent(fields: Seq<Seq<char>>, items: Seq<JsonModel>)
    ensures
        filter_items(fields, filter_items(fields, items)) == filter_items(fields, items),
{
    assert forall|i: int| 0 <= i < items.len() implies #[trigger] filter_items(
        fields,
        filter_items(fields, items),
    )[i] == filter_items(fields, items)[i] by {
        lemma_filter_object_idempotent(fields, items[i]);
    }
    assert(filter_items(fields, filter_items(fields, items)) =~= filter_items(fields, items));
}

/// A key that no member holds is held by none of the members kept.
proof fn lemma_keep_fields_lacks_key(fields: Seq<Seq<char>>, members: Members, key: Seq<char>)
    requires
        key_position(members, key) is None,
    ensures
        key_position(keep_fields(fields, members), key) is None,
{
    let kept = keep_fields(fields, members);
    let pred = |m: (Seq<char>, JsonModel)| fields.contains(m.0);
    if key_position(kept, key) is Some {
        let j = choose|j: int| first_key_at(kept, key, j);
        assert(first_key_at(kept, key, j));
        assert(kept.contains(kept[j]));
        members.lemma_filter_contains_rev(pred, kept[j]);
        let m = choose|m: int| 0 <= m < members.len() && members[m] == kept[j];
        lemma_first_key_exists(members, key, m);
    }
}

/// Keeping the members named in `b` and then those named in `a` keeps those
/// named in both.
proof fn lemma_keep_fields_compose(
    a: Seq<Seq<char>>,
    b: Seq<Seq<char>>,
    both: Seq<Seq<char>>,
    members: Members,
)
    requires
        forall|k: Seq<char>| both.contains(k) <==> (a.contains(k) && b.contains(k)),
    ensures
        keep_fields(a, keep_fields(b, members)) == keep_fields(both, members),
    decreases members.len(),
{
    let pa = |m: (Seq<char>, JsonModel)| a.contains(m.0);
    let pb = |m: (Seq<char>, JsonModel)| b.contains(m.0);
    let pi = |m: (Seq<char>, JsonModel)| both.contains(m.0);
    if members.len() == 0 {
        reveal(Seq::filter);
        assert(keep_fields(b, members) =~= members);
        assert(keep_fields(both, members) =~= members);
    } else {
        let rest = members.drop_last();
        let last = members.last();
        assert(members =~= rest.push(last));
        lemma_keep_fields_compose(a, b, both, rest);
        rest.lemma_filter_push(last, pb);
        rest.lemma_filter_push(last, pi);
        if pb(last) {
            rest.filter(pb).lemma_filter_push(last, pa);
        }
    }
}

/// The kept members of a well-formed object hold no key twice and only
/// well-formed values.
proof fn lemma_keep_fields_well_formed(fields: Seq<Seq<char>>, members: Members)
    requires
        distinct_keys(members),
        forall|i: int| 0 <= i < members.len() ==> well_formed(#[trigger] members[i].1),
    ensures
        distinct_keys(keep_fields(fields, members)),
        forall|i: int|
            0 <= i < keep_fields(fields, members).len() ==> well_formed(
                #[trigger] keep_fields(fields, members)[i].1,
            ),
    decreases members.len(),
{
    let pred = |m: (Seq<char>, JsonModel)| fields.contains(m.0);
    if members.len() == 0 {
        reveal(Seq::filter);
        assert(keep_fields(fields, members) =~= members);
    } else {
        let rest = members.drop_last();
        let last = members.last();
        assert(members =~= rest.push(last));
        lemma_keep_fields_well_formed(fields, rest);
        rest.lemma_filter_push(last, pred);
        let kept_rest = keep_fields(fields, rest);
        if pred(last) {
            assert forall|i: int| 0 <= i < kept_rest.len() implies #[trigger] kept_rest[i].0 != last.0 by {
                assert(kept_rest.contains(kept_rest[i]));
                rest.lemma_filter_contains_rev(pred, kept_rest[i]);
                let j = choose|j: int| 0 <= j < rest.len() && rest[j] == kept_rest[i];
                assert(members[j] == rest[j]);
                assert(members[members.len() - 1] == last);
            }
            let kept = kept_rest.push(last);
            assert forall|i: int, j: int| 0 <= i < j < kept.len() implies kept[i].0 != kept[j].0 by {
                if j == kept.len() - 1 {
                    assert(kept[i] == kept_rest[i]);
                } else {
                    assert(kept[i] == kept_rest[i] && kept[j] == kept_rest[j]);
                }
            }
            assert forall|i: int| 0 <= i < kept.len() implies well_formed(#[trigger] kept[i].1) by {
                if i < kept.len() - 1 {
                    assert(kept[i] == kept_rest[i]);
                } else {
                    assert(members[members.len() - 1] == last);
                }
            }
        }
    }
}

/// Filtering keeps a value well-formed.
proof fn lemma_filter_object_well_formed(fields: Seq<Seq<char>>, v: JsonModel)
    requires
        well_formed(v),
    ensures
        well_formed(filter_object(fields, v)),
{
    if let JsonModel::Object(members) = v {
        lemma_keep_fields_well_formed(fields, members);
    }
}

/// Filtering the items of a well-formed array keeps them well-formed.
proof fn lemma_filter_items_well_formed(fields: Seq<Seq<char>>, items: Seq<JsonModel>)
    requires
        forall|i: int| 0 <= i < items.len() ==> well_formed(#[trigger] items[i]),
    ensures
        forall|i: int|
            0 <= i < items.len() ==> well_formed(#[trigger] filter_items(fields, items)[i]),
{
    assert forall|i: int| 0 <= i < items.len() implies well_formed(
        #[trigger] filter_items(fields, items)[i],
    ) by {
        lemma_filter_object_well_formed(fields, items[i]);
    }
}

/// `--fields` keeps a well-formed value well-formed: no key occurs twice in
/// what it gives.
pub proof fn law_filter_fields_well_formed(fields: Seq<Seq<char>>, v: JsonModel)
    requires
        well_formed(v),
    ensures
        well_formed(filter_fields(fields, v)),
{
    if fields.len() == 0 {
        return;
    }
    match v {
        JsonModel::Object(members) => match key_position(members, "products"@) {
            Some(i) => {
                let k = choose|k: int| first_key_at(members, "products"@, k);
                assert(first_key_at(members, "products"@, k));
                match members[i].1 {
                    JsonModel::Array(items) => {
                        assert(well_formed(members[i].1));
                        lemma_filter_items_well_formed(fields, items);
                        let updated = members.update(
                            i,
                            (members[i].0, JsonModel::Array(filter_items(fields, items))),
                        );
                        assert(well_formed(JsonModel::Array(filter_items(fields, items))));
                        assert forall|j: int| 0 <= j < updated.len() implies well_formed(
                            #[trigger] updated[j].1,
                        ) by {
                            if j != i {
                                assert(updated[j] == members[j]);
                            }
                        }
                        assert forall|x: int, y: int| 0 <= x < y < updated.len() implies updated[x].0
                            != updated[y].0 by {
                            assert(updated[x].0 == members[x].0 && updated[y].0 == members[y].0);
                        }
                    },
                    _ => {},
                }
            },
            None => {
                lemma_filter_object_well_formed(fields, v);
            },
        },
        JsonModel::Array(items) => {
            lemma_filter_items_well_formed(fields, items);
        },
        _ => {},
    }
}

/// Filtering by `b` and then by `a` is filtering by the fields that both
/// request, when some field is requested by both.
pub proof fn law_filter_fields_compose(
    a: Seq<Seq<char>>,
    b: Seq<Seq<char>>,
    both: Seq<Seq<char>>,
    v: JsonModel,
)
    requires
        a.len() > 0,
        b.len() > 0,
        both.len() > 0,
        forall|k: Seq<char>| both.contains(k) <==> (a.contains(k) && b.contains(k)),
    ensures
        filter_fields(a, filter_fields(b, v)) == filter_fields(both, v),
{
    assert forall|x: JsonModel| filter_object(a, filter_object(b, x)) == filter_object(both, x) by {
        if let JsonModel::Object(members) = x {
            lemma_keep_fields_compose(a, b, both, members);
        }
    }
    match v {
        JsonModel::Object(members) => match key_position(members, "products"@) {
            Some(i) => {
                let k = choose|k: int| first_key_at(members, "products"@, k);
                assert(first_key_at(members, "products"@, k));
                match members[i].1 {
                    JsonModel::Array(items) => {
                        let once = filter_items(b, items);
                        let updated = members.update(i, (members[i].0, JsonModel::Array(once)));
                        assert(first_key_at(updated, "products"@, i));
                        lemma_first_key_unique(updated, "products"@, i);
                        assert(filter_items(a, once) =~= filter_items(both, items));
                        assert(updated.update(i, (updated[i].0, JsonModel::Array(filter_items(a, once))))
                            =~= members.update(i, (members[i].0, JsonModel::Array(filter_items(both, items)))));
                    },
                    _ => {},
                }
            },
            None => {
                lemma_keep_fields_lacks_key(b, members, "products"@);
            },
        },
        JsonModel::Array(items) => {
            assert(filter_items(a, filter_items(b, items)) =~= filter_items(both, items));
        },
        _ => {},
    }
}

/// What `--fields` keeps depends only on which fields are requested, not on
/// their order or repetition.
pub proof fn law_filter_fields_depends_on_set(f: Seq<Seq<char>>, g: Seq<Seq<char>>, v: JsonModel)
    requires
        forall|k: Seq<char>| f.contains(k) <==> g.contains(k),
    ensures
        filter_fields(f, v) == filter_fields(g, v),
{
    if f.len() > 0 {
        assert(g.contains(f[0]));
    }
    if g.len() > 0 {
        assert(f.contains(g[0]));
    }
    let pf = |m: (Seq<char>, JsonModel)| f.contains(m.0);
    let pg = |m: (Seq<char>, JsonModel)| g.contains(m.0);
    assert(pf =~= pg);
    assert forall|x: JsonModel| filter_object(f, x) == filter_object(g, x) by {}
    assert forall|items: Seq<JsonModel>| filter_items(f, items) == filter_items(g, items) by {
        assert(filter_items(f, items) =~= filter_items(g, items));
    }
}

/// Applying `--fields` to its own result changes nothing: what it keeps, it
/// keeps again.
pub proof fn law_filter_fields_idempotent(fields: Seq<Seq<char>>, v: JsonModel)
    ensures
        filter_fields(fields, filter_fields(fields, v)) == filter_fields(fields, v),
{
    if fields.len() == 0 {
        return;
    }
    match v {
        JsonModel::Object(members) => match key_position(members, "products"@) {
            Some(i) => {
                let k = choose|k: int| first_key_at(members, "products"@, k);
                assert(first_key_at(members, "products"@, k));
                match members[i].1 {
                    JsonModel::Array(items) => {
                        let once = filter_items(fields, items);
                        let updated = members.update(i, (members[i].0, JsonModel::Array(once)));
                        assert(first_key_at(updated, "products"@, i));
                        lemma_first_key_unique(updated, "products"@, i);
                        lemma_filter_items_idempotent(fields, items);
                        assert(updated.update(i, (updated[i].0, JsonModel::Array(filter_items(fields, once))))
                            =~= updated);
                    },
                    _ => {},
                }
            },
            None => {
                lemma_keep_fields_lacks_key(fields, members, "products"@);
                lemma_keep_fields_idempotent(fields, members);
            },
        },
        JsonModel::Array(items) => {
            lemma_filter_items_idempotent(fields, items);
        },
        _ => {},
    }
}

/// `out` holds exactly the members of `members` whose key is one of `fields`.
pub open spec fn holds_requested(fields: Seq<Seq<char>>, members: Members, out: Members) -> bool {
    forall|m: (Seq<char>, JsonModel)| out.contains(m) <==> (members.contains(m) && fields.contains(m.0))
}

/// The members kept are exactly the requested ones.
proof fn lemma_keep_fields_holds_requested(fields: Seq<Seq<char>>, members: Members)
    ensures
        holds_requested(fields, members, keep_fields(fields, members)),
{
    let pred = |m: (Seq<char>, JsonModel)| fields.contains(m.0);
    let out = keep_fields(fields, members);
    assert forall|m: (Seq<char>, JsonModel)| out.contains(m) <==> (members.contains(m) && fields.contains(
        m.0,
    )) by {
        if out.contains(m) {
            members.lemma_filter_contains_rev(pred, m);
            let j = choose|j: int| 0 <= j < out.len() && out[j] == m;
            members.lemma_filter_pred(pred, j);
        }
        if members.contains(m) && fields.contains(m.0) {
            let j = choose|j: int| 0 <= j < members.len() && members[j] == m;
            members.lemma_filter_contains(pred, j);
        }
    }
}

/// Filtering items keeps every item in its place: an object stays an object
/// (an empty one where it has none of the fields) holding exactly its
/// requested members, and any other item stays as it is.
pub proof fn law_filter_items(fields: Seq<Seq<char>>, items: Seq<JsonModel>)
    ensures
        filter_items(fields, items).len() == items.len(),
        forall|i: int|
            0 <= i < items.len() ==> (match items[i] {
                JsonModel::Object(members) => #[trigger] filter_items(fields, items)[i] matches JsonModel::Object(out)
                    && holds_requested(fields, members, out),
                other => filter_items(fields, items)[i] == other,
            }),
{
    assert forall|i: int| 0 <= i < items.len() implies (match items[i] {
        JsonModel::Object(members) => #[trigger] filter_items(fields, items)[i] matches JsonModel::Object(out)
            && holds_requested(fields, members, out),
        other => filter_items(fields, items)[i] == other,
    }) by {
        if let JsonModel::Object(members) = items[i] {
            lemma_keep_fields_holds_requested(fields, members);
        }
    }
}

/// `--fields` on an array (a facet list, or the products of `--all`) keeps
/// every item in its place, each object holding exactly its requested members.
pub proof fn law_filter_fields_array(fields: Seq<Seq<char>>, items: Seq<JsonModel>)
    requires
        fields.len() > 0,
    ensures
        filter_fields(fields, JsonModel::Array(items)) matches JsonModel::Array(out) && {
            &&& out.len() == items.len()
            &&& forall|i: int|
                0 <= i < items.len() ==> (match items[i] {
                    JsonModel::Object(members) => #[trigger] out[i] matches JsonModel::Object(kept)
                        && holds_requested(fields, members, kept),
                    other => out[i] == other,
                })
        },
{
    law_filter_items(fields, items);
}

/// With `--fields` on a search page, every member but `products` keeps its
/// key, its place and its value, and `products` has each item filtered.
pub proof fn law_filter_fields_keeps_envelope(fields: Seq<Seq<char>>, members: Members, i: int)
    requires
        fields.len() > 0,
        first_key_at(members, "products"@, i),
        members[i].1 is Array,
    ensures
        filter_fields(fields, JsonModel::Object(members)) matches JsonModel::Object(out) && {
            &&& out.len() == members.len()
            &&& forall|j: int| 0 <= j < members.len() && j != i ==> out[j] == members[j]
            &&& out[i] == (members[i].0, JsonModel::Array(filter_items(fields, members[i].1->Array_0)))
            &&& out[i].1 matches JsonModel::Array(products) && {
                let items = members[i].1->Array_0;
                &&& products.len() == items.len()
                &&& forall|j: int|
                    0 <= j < items.len() ==> (match items[j] {
                        JsonModel::Object(ms) => #[trigger] products[j] matches JsonModel::Object(kept)
                            && holds_requested(fields, ms, kept),
                        other => products[j] == other,
                    })
            }
        },
{
    lemma_first_key_unique(members, "products"@, i);
    law_filter_items(fields, members[i].1->Array_0);
}

/// With `--fields` on a single object, what is left are exactly the members
/// whose key was requested.
pub proof fn law_filter_fields_keeps_requested(fields: Seq<Seq<char>>, members: Members)
    requires
        fields.len() > 0,
        key_position(members, "products"@) is None,
    ensures
        filter_fields(fields, JsonModel::Object(members)) matches JsonModel::Object(out) && forall|
            m: (Seq<char>, JsonModel),
        | out.contains(m) <==> (members.contains(m) && fields.contains(m.0)),
{
    let pred = |m: (Seq<char>, JsonModel)| fields.contains(m.0);
    let out = keep_fields(fields, members);
    assert forall|m: (Seq<char>, JsonModel)| out.contains(m) <==> (members.contains(m) && fields.contains(
        m.0,
    )) by {
        if out.contains(m) {
            members.lemma_filter_contains_rev(pred, m);
            let j = choose|j: int| 0 <= j < out.len() && out[j] == m;
            members.lemma_filter_pred(pred, j);
        }
        if members.contains(m) && fields.contains(m.0) {
            let j = choose|j: int| 0 <= j < members.len() && members[j] == m;
            members.lemma_filter_contains(pred, j);
        }
    }
}

/// Without `--fields`, every result is written as it came.
pub proof fn law_no_fields_changes_nothing(v: JsonModel)
    ensures
        filter_fields(Seq::empty(), v) == v,
{
}

/// Values that are neither objects nor arrays pass through `--fields`.
pub proof fn law_scalars_pass_through(fields: Seq<Seq<char>>, v: JsonModel)
    requires
        !(v is Object),
        !(v is Array),
    ensures
        filter_fields(fields, v) == v,
{
}

impl Output {
    pub fn new(force_compact: bool, fields: Vec<String>) -> (r: Output)
        ensures
            r@.force_compact == force_compact,
            r@.fields == fields@.map_values(|f: String| f@),
    {
        Output { force_compact, fields }
    }

    /// Whether the result is written compact: when asked for, or when the
    /// output is not a terminal.
    pub fn compact(&self, stdout_is_terminal: bool) -> (r: bool)
        ensures
            r == (self@.force_compact || !stdout_is_terminal),
    {
        self.force_compact || !stdout_is_terminal
    }

    /// Whether `key` is one of the requested fields.
    fn wants(&self, key: &String) -> (r: bool)
        ensures
            r == self@.fields.contains(key@),
    {
        let ghost fields = self@.fields;
        let mut i: usize = 0;
        while i < self.fields.len()
            invariant
                0 <= i <= self.fields.len(),
                fields == self@.fields,
                fields.len() == self.fields.len(),
                forall|j: int| 0 <= j < i ==> fields[j] != key@,
            decreases self.fields.len() - i,
        {
            if self.fields[i] == *key {
                assert(fields[i as int] == key@);
                return true;
            }
            i = i + 1;
        }
        false
    }

    /// Keeps only the requested members of an object; leaves any other value.
    fn filter_object(&self, value: Json) -> (r: Json)
        ensures
            r.model() == filter_object(self@.fields, value.model()),
    {
        let ghost fields = self@.fields;
        match value {
            Json::Object(pairs) => {
                let ghost all = pairs@;
                proof {
                    lemma_object_model(pairs);
                }
                let mut kept: Vec<(String, Json)> = Vec::new();
                for p in it: pairs.into_iter()
                    invariant
                        fields == self@.fields,
                        it.seq() == all,
                        pairs_model(kept@) == keep_fields(fields, pairs_model(all.take(it.index() as int))),
                {
                    let ghost before = kept@;
                    let ghost idx = it.index() as int;
                    let keep = self.wants(&p.0);
                    let ghost entry = (p.0@, p.1.model());
                    proof {
                        assert(all.take(idx + 1) == all.take(idx).push(all[idx]));
                        assert(pairs_model(all.take(idx + 1)) =~= pairs_model(all.take(idx)).push(entry));
                        pairs_model(all.take(idx)).lemma_filter_push(entry, |m: (Seq<char>, JsonModel)| fields.contains(m.0));
                    }
                    if keep {
                        kept.push(p);
                        proof {
                            assert(pairs_model(kept@) =~= pairs_model(before).push(entry));
                        }
                    }
                }
                proof {
                    assert(all.take(all.len() as int) =~= all);
                    lemma_object_model(kept);
                }
                Json::Object(kept)
            },
            other => other,
        }
    }

    /// Filters each item of an array as an object.
    fn filter_items(&self, items: Vec<Json>) -> (r: Vec<Json>)
        ensures
            items_model(r@) == filter_items(self@.fields, items_model(items@)),
    {
        let ghost fields = self@.fields;
        let ghost all = items@;
        let mut out: Vec<Json> = Vec::new();
        for x in it: items.into_iter()
            invariant
                fields == self@.fields,
                it.seq() == all,
                items_model(out@) == filter_items(fields, items_model(all.take(it.index() as int))),
        {
            let ghost before = out@;
            let ghost idx = it.index() as int;
            let ghost xm = x.model();
            let y = self.filter_object(x);
            out.push(y);
            proof {
                assert(all.take(idx + 1) == all.take(idx).push(all[idx]));
                assert(items_model(all.take(idx + 1)) =~= items_model(all.take(idx)).push(xm));
                assert(items_model(out@) =~= items_model(before).push(y.model()));
                assert(filter_items(fields, items_model(all.take(idx + 1))) =~= filter_items(
                    fields,
                    items_model(all.take(idx)),
                ).push(filter_object(fields, xm)));
            }
        }
        proof {
            assert(all.take(all.len() as int) =~= all);
        }
        out
    }

    /// Applies `--fields` to a result; see [`filter_fields`].
    pub fn filter_fields(&self, value: Json) -> (r: Json)
        ensures
            r.model() == filter_fields(self@.fields, value.model()),
            well_formed(value.model()) ==> well_formed(r.model()),
    {
        proof {
            if well_formed(value.model()) {
                law_filter_fields_well_formed(self@.fields, value.model());
            }
        }
        if self.fields.len() == 0 {
            return value;
        }
        match value {
            Json::Object(pairs) => {
                proof {
                    lemma_object_model(pairs);
                }
                let key = String::from_str("products");
                match find_key(&pairs, &key) {
                    Some(i) => {
                        let ghost members = pairs_model(pairs@);
                        let mut pairs = pairs;
                        let (k, v) = pairs.remove(i);
                        let ghost entry = (k@, v.model());
                        let v = match v {
                            Json::Array(items) => {
                                proof {
                                    lemma_array_model(items);
                                }
                                let filtered = self.filter_items(items);
                                proof {
                                    lemma_array_model(filtered);
                                }
                                Json::Array(filtered)
                            },
                            other => other,
                        };
                        let ghost new_entry = (k@, v.model());
                        pairs.insert(i, (k, v));
                        proof {
                            lemma_object_model(pairs);
                            assert(pairs_model(pairs@) =~= members.update(i as int, new_entry));
                            if !(entry.1 is Array) {
                                assert(members.update(i as int, new_entry) =~= members);
                            }
                        }
                        Json::Object(pairs)
                    },
                    None => self.filter_object(Json::Object(pairs)),
                }
            },
            Json::Array(items) => {
                proof {
                    lemma_array_model(items);
                }
                let filtered = self.filter_items(items);
                proof {
                    lemma_array_model(filtered);
                }
                Json::Array(filtered)
            },
            other => other,
        }
    }
}

} // verus!
