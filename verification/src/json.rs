use vstd::prelude::*;

verus! {

/// A JSON number as a JSON parser hands it over.
#[derive(Debug, Clone, Copy, PartialEq, Eq)]
pub enum JsonNumber {
    /// A non-negative integer.
    PosInt(u64),
    /// A negative integer.
    NegInt(i64),
    /// Any other number, held as the bit pattern of its IEEE-754 double.
    Float(u64),
}

/// A JSON value. An object keeps its members in order, as `(key, value)` pairs.
#[derive(Debug, PartialEq, Eq)]
pub enum Json {
    Null,
    Bool(bool),
    Number(JsonNumber),
    Str(String),
    Array(Vec<Json>),
    Object(Vec<(String, Json)>),
}

/// The mathematical model of a JSON value.
pub enum JsonModel {
    Null,
    Bool(bool),
    Number(JsonNumber),
    Str(Seq<char>),
    Array(Seq<JsonModel>),
    Object(Seq<(Seq<char>, JsonModel)>),
}

/// The members of an object, as a sequence of `(key, value)` pairs.
pub type Members = Seq<(Seq<char>, JsonModel)>;

impl Json {
    /// The model of a value: strings become character sequences, arrays and
    /// objects the sequences of their items' models.
    pub open spec fn model(self) -> JsonModel
        decreases self,
    {
        match self {
            Json::Null => JsonModel::Null,
            Json::Bool(b) => JsonModel::Bool(b),
            Json::Number(n) => JsonModel::Number(n),
            Json::Str(s) => JsonModel::Str(s@),
            Json::Array(items) => JsonModel::Array(
                Seq::new(
                    items.len() as nat,
                    |i: int|
                        if 0 <= i < items.len() {
                            items@[i].model()
                        } else {
                            JsonModel::Null
                        },
                ),
            ),
            Json::Object(pairs) => JsonModel::Object(
                Seq::new(
                    pairs.len() as nat,
                    |i: int|
                        if 0 <= i < pairs.len() {
                            (pairs@[i].0@, pairs@[i].1.model())
                        } else {
                            (Seq::empty(), JsonModel::Null)
                        },
                ),
            ),
        }
    }
}

/// The models of a sequence of values.
pub open spec fn items_model(items: Seq<Json>) -> Seq<JsonModel> {
    Seq::new(items.len(), |i: int| items[i].model())
}

/// The models of a sequence of members.
pub open spec fn pairs_model(pairs: Seq<(String, Json)>) -> Members {
    Seq::new(pairs.len(), |i: int| (pairs[i].0@, pairs[i].1.model()))
}

/// The model of an array is the sequence of its items' models.
pub proof fn lemma_array_model(items: Vec<Json>)
    ensures
        Json::Array(items).model() == JsonModel::Array(items_model(items@)),
{
    let m = Json::Array(items).model();
    assert(m matches JsonModel::Array(s) && s =~= items_model(items@));
}

/// The model of an object is the sequence of its members' models.
pub proof fn lemma_object_model(pairs: Vec<(String, Json)>)
    ensures
        Json::Object(pairs).model() == JsonModel::Object(pairs_model(pairs@)),
{
    let m = Json::Object(pairs).model();
    assert(m matches JsonModel::Object(s) && s =~= pairs_model(pairs@));
}

/// No two members share a key.
pub open spec fn distinct_keys(members: Members) -> bool {
    forall|i: int, j: int| 0 <= i < j < members.len() ==> members[i].0 != members[j].0
}

/// A well-formed value: in it and in every value nested in it, no object
/// holds a key twice, as a JSON library's maps never do.
pub open spec fn well_formed(v: JsonModel) -> bool
    decreases v,
{
    match v {
        JsonModel::Array(items) => forall|i: int|
            0 <= i < items.len() ==> well_formed(#[trigger] items[i]),
        JsonModel::Object(members) => distinct_keys(members) && forall|i: int|
            0 <= i < members.len() ==> well_formed(#[trigger] members[i].1),
        _ => true,
    }
}

/// `i` is the position of the first member named `key`.
pub open spec fn first_key_at(members: Members, key: Seq<char>, i: int) -> bool {
    &&& 0 <= i < members.len()
    &&& members[i].0 == key
    &&& forall|j: int| 0 <= j < i ==> members[j].0 != key
}

/// No member is named `key`.
pub open spec fn lacks_key(members: Members, key: Seq<char>) -> bool {
    forall|j: int| 0 <= j < members.len() ==> members[j].0 != key
}

/// The position of the first member named `key`, if there is one.
pub open spec fn key_position(members: Members, key: Seq<char>) -> Option<int> {
    if exists|i: int| first_key_at(members, key, i) {
        Some(choose|i: int| first_key_at(members, key, i))
    } else {
        None
    }
}

/// The value of the first member named `key`, if there is one: what a JSON
/// library's lookup of `key` in an object gives.
pub open spec fn member(members: Members, key: Seq<char>) -> Option<JsonModel> {
    match key_position(members, key) {
        Some(i) => Some(members[i].1),
        None => None,
    }
}

/// Looking `key` up in a value: the member's value for an object, nothing
/// for any other value.
pub open spec fn get(v: JsonModel, key: Seq<char>) -> Option<JsonModel> {
    match v {
        JsonModel::Object(members) => member(members, key),
        _ => None,
    }
}

/// The value as an unsigned integer, where it is one.
pub open spec fn as_u64(v: JsonModel) -> Option<u64> {
    match v {
        JsonModel::Number(JsonNumber::PosInt(n)) => Some(n),
        _ => None,
    }
}

/// There is at most one first position of a key.
pub proof fn lemma_first_key_unique(members: Members, key: Seq<char>, i: int)
    requires
        first_key_at(members, key, i),
    ensures
        key_position(members, key) == Some(i),
{
    let k = choose|k: int| first_key_at(members, key, k);
    assert(first_key_at(members, key, k));
    if k < i {
        assert(members[k].0 != key);
    } else if i < k {
        assert(members[i].0 != key);
    }
}

/// A key that no member holds has no position.
pub proof fn lemma_lacks_key(members: Members, key: Seq<char>)
    requires
        lacks_key(members, key),
    ensures
        key_position(members, key) is None,
{
    if exists|i: int| first_key_at(members, key, i) {
        let k = choose|k: int| first_key_at(members, key, k);
        assert(members[k].0 != key);
    }
}

/// What a lookup finds in a well-formed value is well-formed.
pub proof fn lemma_get_well_formed(v: JsonModel, key: Seq<char>)
    requires
        well_formed(v),
    ensures
        get(v, key) matches Some(x) ==> well_formed(x),
{
    if let JsonModel::Object(members) = v {
        if let Some(i) = key_position(members, key) {
            let k = choose|k: int| first_key_at(members, key, k);
            assert(first_key_at(members, key, k));
            assert(well_formed(members[k].1));
        }
    }
}

/// Where no key occurs twice, looking a key up finds the one member that
/// holds it: lookup is that of a map.
pub proof fn lemma_member_of_distinct(members: Members, key: Seq<char>, i: int)
    requires
        distinct_keys(members),
        0 <= i < members.len(),
        members[i].0 == key,
    ensures
        member(members, key) == Some(members[i].1),
{
    assert(first_key_at(members, key, i));
    lemma_first_key_unique(members, key, i);
}

/// The position of the first member of `pairs` named `key`.
pub fn find_key(pairs: &Vec<(String, Json)>, key: &String) -> (r: Option<usize>)
    ensures
        match r {
            Some(i) => key_position(pairs_model(pairs@), key@) == Some(i as int),
            None => key_position(pairs_model(pairs@), key@) is None,
        },
{
    let ghost members = pairs_model(pairs@);
    let mut i: usize = 0;
    while i < pairs.len()
        invariant
            0 <= i <= pairs.len(),
            members == pairs_model(pairs@),
            forall|j: int| 0 <= j < i ==> members[j].0 != key@,
        decreases pairs.len() - i,
    {
        if pairs[i].0 == *key {
            proof {
                lemma_first_key_unique(members, key@, i as int);
            }
            return Some(i);
        }
        i = i + 1;
    }
    proof {
        lemma_lacks_key(members, key@);
    }
    None
}

impl Json {
    /// Looks `key` up, as a JSON library's `get` does.
    pub fn get(&self, key: &String) -> (r: Option<&Json>)
        ensures
            match r {
                Some(v) => get(self.model(), key@) == Some(v.model()) && (well_formed(self.model())
                    ==> well_formed(v.model())),
                None => get(self.model(), key@) is None,
            },
    {
        proof {
            if well_formed(self.model()) {
                lemma_get_well_formed(self.model(), key@);
            }
        }
        match self {
            Json::Object(pairs) => {
                proof {
                    lemma_object_model(*pairs);
                }
                match find_key(pairs, key) {
                    Some(i) => Some(&pairs[i].1),
                    None => None,
                }
            },
            _ => None,
        }
    }

    /// Takes the value of member `key` out of an object, as a JSON library's
    /// `get` followed by a clone gives it.
    pub fn take_member(self, key: &String) -> (r: Option<Json>)
        ensures
            match r {
                Some(v) => get(self.model(), key@) == Some(v.model()) && (well_formed(self.model())
                    ==> well_formed(v.model())),
                None => get(self.model(), key@) is None,
            },
    {
        proof {
            if well_formed(self.model()) {
                lemma_get_well_formed(self.model(), key@);
            }
        }
        match self {
            Json::Object(pairs) => {
                proof {
                    lemma_object_model(pairs);
                }
                match find_key(&pairs, key) {
                    Some(i) => {
                        let mut pairs = pairs;
                        let (_, v) = pairs.remove(i);
                        Some(v)
                    },
                    None => None,
                }
            },
            _ => None,
        }
    }

    /// The value as an unsigned integer, where it is one.
    pub fn as_u64(&self) -> (r: Option<u64>)
        ensures
            r == as_u64(self.model()),
    {
        match self {
            Json::Number(JsonNumber::PosInt(n)) => Some(*n),
            _ => None,
        }
    }
}

} // verus!
