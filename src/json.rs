use vstd::prelude::*;
use vstd::string::*;

verus! {

#[verifier::external_type_specification]
#[verifier::external_body]
pub struct ExValue(serde_json::Value);

#[verifier::external_type_specification]
#[verifier::external_body]
pub struct ExJsonError(serde_json::Error);

/// A JSON document as the library reads and builds it.
/// Numbers are kept as their literal text.
#[derive(Debug, PartialEq)]
pub enum Json {
    Null,
    Bool(bool),
    Number(String),
    Str(String),
    Array(Vec<Json>),
    Object(Vec<(String, Json)>),
}

/// The value stored under `key` among `fields`, searching from position `i`;
/// the first entry with that key wins.
pub open spec fn lookup_from(fields: Seq<(String, Json)>, key: Seq<char>, i: int) -> Option<Json>
    decreases fields.len() - i,
{
    if i < 0 || i >= fields.len() {
        None
    } else if fields[i].0@ == key {
        Some(fields[i].1)
    } else {
        lookup_from(fields, key, i + 1)
    }
}

/// The member `key` of `j`, where `j` is an object that has it.
pub open spec fn field(j: Json, key: Seq<char>) -> Option<Json> {
    match j {
        Json::Object(fields) => lookup_from(fields@, key, 0),
        _ => None,
    }
}

/// Looks up the member `key` of an object.
pub fn get_field<'a>(j: &'a Json, key: &str) -> (r: Option<&'a Json>)
    ensures
        match r {
            Some(v) => field(*j, key@) == Some(*v),
            None => field(*j, key@) is None,
        },
{
    match j {
        Json::Object(fields) => {
            let k = String::from_str(key);
            let mut i: usize = 0;
            while i < fields.len()
                invariant
                    i <= fields@.len(),
                    k@ == key@,
                    field(*j, key@) == lookup_from(fields@, key@, 0),
                    lookup_from(fields@, key@, 0) == lookup_from(fields@, key@, i as int),
                decreases fields@.len() - i,
            {
                if fields[i].0 == k {
                    assert(lookup_from(fields@, key@, i as int) == Some(fields@[i as int].1));
                    return Some(&fields[i].1);
                }
                i = i + 1;
            }
            None
        },
        _ => None,
    }
}

/// A JSON document as plain values: numbers by their text, members in the order
/// serde_json keeps them.
pub enum JsonModel {
    Null,
    Bool(bool),
    Number(Seq<char>),
    Str(Seq<char>),
    Array(Seq<JsonModel>),
    Object(Seq<(Seq<char>, JsonModel)>),
}

/// Whether `s` is a well-formed JSON document, as serde_json reads it.
pub uninterp spec fn is_json_text(s: Seq<char>) -> bool;

/// The document that serde_json reads from a well-formed text.
pub uninterp spec fn json_of(s: Seq<char>) -> JsonModel;

/// One level of a document, each child given as its own JSON text.
pub enum JsonLevel {
    Null,
    Bool(bool),
    Number(String),
    Str(String),
    Array(Vec<String>),
    Object(Vec<(String, String)>),
}

/// `l` is the top level of `m`, and each child text of `l` reads as the
/// matching child of `m`.
pub open spec fn level_of(l: JsonLevel, m: JsonModel) -> bool {
    match (l, m) {
        (JsonLevel::Null, JsonModel::Null) => true,
        (JsonLevel::Bool(a), JsonModel::Bool(b)) => a == b,
        (JsonLevel::Number(t), JsonModel::Number(u)) => t@ == u,
        (JsonLevel::Str(t), JsonModel::Str(u)) => t@ == u,
        (JsonLevel::Array(cs), JsonModel::Array(items)) => cs@.len() == items.len() && forall|i: int|
            0 <= i < cs@.len() ==> is_json_text(#[trigger] cs@[i]@) && json_of(cs@[i]@) == items[i],
        (JsonLevel::Object(fs), JsonModel::Object(ms)) => fs@.len() == ms.len() && forall|i: int|
            0 <= i < fs@.len() ==> (#[trigger] fs@[i]).0@ == ms[i].0 && is_json_text(fs@[i].1@)
                && json_of(fs@[i].1@) == ms[i].1,
        _ => false,
    }
}

/// Relies on serde_json::from_str, which accepts a text exactly when it is a
/// well-formed JSON document and reads it the same way every time, and on
/// serde_json::Value's text form, which (with the float_roundtrip feature)
/// serde_json reads back as the same value.
#[verifier::external_body]
pub(crate) fn read_level(s: &str) -> (r: Option<JsonLevel>)
    ensures
        r is Some <==> is_json_text(s@),
        r matches Some(l) ==> level_of(l, json_of(s@)),
{
    serde_json::from_str::<serde_json::Value>(s).ok().map(|v| match v {
        serde_json::Value::Null => JsonLevel::Null,
        serde_json::Value::Bool(b) => JsonLevel::Bool(b),
        serde_json::Value::Number(n) => JsonLevel::Number(n.to_string()),
        serde_json::Value::String(t) => JsonLevel::Str(t),
        serde_json::Value::Array(a) => JsonLevel::Array(a.iter().map(|x| x.to_string()).collect()),
        serde_json::Value::Object(m) => JsonLevel::Object(m.into_iter().map(|(k, x)| (k, x.to_string())).collect()),
    })
}

/// The value under `key` among `fields`, searching from position `i`; the first
/// entry with that key wins.
pub open spec fn model_lookup(fields: Seq<(Seq<char>, JsonModel)>, key: Seq<char>, i: int) -> Option<JsonModel>
    decreases fields.len() - i,
{
    if i < 0 || i >= fields.len() {
        None
    } else if fields[i].0 == key {
        Some(fields[i].1)
    } else {
        model_lookup(fields, key, i + 1)
    }
}

/// The member `key` of `m`, where `m` is an object that has it.
pub open spec fn model_field(m: JsonModel, key: Seq<char>) -> Option<JsonModel> {
    match m {
        JsonModel::Object(fields) => model_lookup(fields, key, 0),
        _ => None,
    }
}

/// The text of the member `key` of a level whose document is `m`.
pub(crate) fn level_member<'a>(l: &'a JsonLevel, key: &str, Ghost(m): Ghost<JsonModel>) -> (r: Option<&'a String>)
    requires
        level_of(*l, m),
    ensures
        match r {
            Some(t) => is_json_text(t@) && model_field(m, key@) == Some(json_of(t@)),
            None => model_field(m, key@) is None,
        },
{
    match l {
        JsonLevel::Object(fields) => {
            let k = String::from_str(key);
            let ghost ms = m->Object_0;
            let mut i: usize = 0;
            while i < fields.len()
                invariant
                    i <= fields@.len(),
                    k@ == key@,
                    m is Object,
                    ms == m->Object_0,
                    level_of(JsonLevel::Object(*fields), m),
                    model_lookup(ms, key@, 0) == model_lookup(ms, key@, i as int),
                decreases fields@.len() - i,
            {
                assert(fields@[i as int].0@ == ms[i as int].0);
                if fields[i].0 == k {
                    return Some(&fields[i].1);
                }
                i = i + 1;
            }
            None
        },
        _ => None,
    }
}

/// Whether `j` holds the same document as `m`.
pub open spec fn models(j: Json, m: JsonModel) -> bool
    decreases m,
{
    match (j, m) {
        (Json::Null, JsonModel::Null) => true,
        (Json::Bool(a), JsonModel::Bool(b)) => a == b,
        (Json::Number(t), JsonModel::Number(u)) => t@ == u,
        (Json::Str(t), JsonModel::Str(u)) => t@ == u,
        (Json::Array(items), JsonModel::Array(ms)) => items@.len() == ms.len() && forall|i: int|
            0 <= i < ms.len() ==> models(#[trigger] items@[i], ms[i]),
        (Json::Object(fields), JsonModel::Object(ms)) => fields@.len() == ms.len() && forall|i: int|
            0 <= i < ms.len() ==> (#[trigger] fields@[i]).0@ == ms[i].0 && models(fields@[i].1, ms[i].1),
        _ => false,
    }
}

/// The nesting of `m`: none for a plain value, one more than its deepest child
/// for an array or object.
pub open spec fn depth_of(m: JsonModel) -> nat
    decreases m,
{
    match m {
        JsonModel::Array(ms) => 1 + seq_depth(ms, ms.len() as int),
        JsonModel::Object(ms) => 1 + fields_depth(ms, ms.len() as int),
        _ => 0,
    }
}

/// The deepest of the first `n` items.
pub open spec fn seq_depth(ms: Seq<JsonModel>, n: int) -> nat
    decreases ms, n,
{
    if n <= 0 || n > ms.len() {
        0
    } else {
        let d = depth_of(ms[n - 1]);
        let rest = seq_depth(ms, n - 1);
        if d > rest { d } else { rest }
    }
}

/// The deepest of the first `n` member values.
pub open spec fn fields_depth(ms: Seq<(Seq<char>, JsonModel)>, n: int) -> nat
    decreases ms, n,
{
    if n <= 0 || n > ms.len() {
        0
    } else {
        let d = depth_of(ms[n - 1].1);
        let rest = fields_depth(ms, n - 1);
        if d > rest { d } else { rest }
    }
}

proof fn lemma_seq_depth_bounds(ms: Seq<JsonModel>, n: int, k: int)
    requires
        0 <= k < n <= ms.len(),
    ensures
        depth_of(ms[k]) <= seq_depth(ms, n),
    decreases n,
{
    if k < n - 1 {
        lemma_seq_depth_bounds(ms, n - 1, k);
    }
}

proof fn lemma_fields_depth_bounds(ms: Seq<(Seq<char>, JsonModel)>, n: int, k: int)
    requires
        0 <= k < n <= ms.len(),
    ensures
        depth_of(ms[k].1) <= fields_depth(ms, n),
    decreases n,
{
    if k < n - 1 {
        lemma_fields_depth_bounds(ms, n - 1, k);
    }
}

/// The deepest nesting that `parse_json` follows.
pub const MAX_DEPTH: u32 = 256;

/// Reads a document of at most `depth` levels into the library's tree.
fn tree_of_text(s: &str, depth: u32) -> (r: Option<Json>)
    ensures
        !is_json_text(s@) ==> r is None,
        r matches Some(j) ==> models(j, json_of(s@)),
        is_json_text(s@) && depth_of(json_of(s@)) < depth ==> r is Some,
    decreases depth,
{
    if depth == 0 {
        return None;
    }
    let level = match read_level(s) {
        Some(l) => l,
        None => return None,
    };
    let ghost m = json_of(s@);
    match level {
        JsonLevel::Null => Some(Json::Null),
        JsonLevel::Bool(b) => Some(Json::Bool(b)),
        JsonLevel::Number(n) => Some(Json::Number(n)),
        JsonLevel::Str(t) => Some(Json::Str(t)),
        JsonLevel::Array(children) => {
            let ghost ms = m->Array_0;
            proof {
                assert forall|k: int| 0 <= k < ms.len() implies depth_of(#[trigger] ms[k]) <= seq_depth(ms, ms.len() as int) by {
                    lemma_seq_depth_bounds(ms, ms.len() as int, k);
                }
            }
            let mut items: Vec<Json> = Vec::new();
            let mut i: usize = 0;
            while i < children.len()
                invariant
                    depth > 0,
                    i <= children@.len(),
                    items@.len() == i,
                    children@.len() == ms.len(),
                    forall|k: int| 0 <= k < children@.len() ==> is_json_text(#[trigger] children@[k]@)
                        && json_of(children@[k]@) == ms[k],
                    forall|k: int| 0 <= k < i ==> models(#[trigger] items@[k], ms[k]),
                    m == json_of(s@),
                    m == JsonModel::Array(ms),
                    depth_of(m) < depth ==> forall|k: int| 0 <= k < ms.len() ==> depth_of(#[trigger] ms[k]) < depth - 1,
                decreases children@.len() - i,
            {
                match tree_of_text(children[i].as_str(), depth - 1) {
                    Some(j) => items.push(j),
                    None => return None,
                }
                i = i + 1;
            }
            Some(Json::Array(items))
        },
        JsonLevel::Object(children) => {
            let ghost ms = m->Object_0;
            proof {
                assert forall|k: int| 0 <= k < ms.len() implies depth_of(#[trigger] ms[k].1) <= fields_depth(ms, ms.len() as int) by {
                    lemma_fields_depth_bounds(ms, ms.len() as int, k);
                }
            }
            let mut fields: Vec<(String, Json)> = Vec::new();
            let mut i: usize = 0;
            while i < children.len()
                invariant
                    depth > 0,
                    i <= children@.len(),
                    fields@.len() == i,
                    children@.len() == ms.len(),
                    forall|k: int| 0 <= k < children@.len() ==> (#[trigger] children@[k]).0@ == ms[k].0
                        && is_json_text(children@[k].1@) && json_of(children@[k].1@) == ms[k].1,
                    forall|k: int| 0 <= k < i ==> (#[trigger] fields@[k]).0@ == ms[k].0 && models(fields@[k].1, ms[k].1),
                    m == json_of(s@),
                    m == JsonModel::Object(ms),
                    depth_of(m) < depth ==> forall|k: int| 0 <= k < ms.len() ==> depth_of(#[trigger] ms[k].1) < depth - 1,
                decreases children@.len() - i,
            {
                match tree_of_text(children[i].1.as_str(), depth - 1) {
                    Some(j) => fields.push((children[i].0.clone(), j)),
                    None => return None,
                }
                i = i + 1;
            }
            Some(Json::Object(fields))
        },
    }
}

/// Reads a JSON document into the library's tree: nothing for text that is not
/// well-formed JSON, and otherwise the document serde_json reads, unless it
/// nests `MAX_DEPTH` levels or more.
pub fn parse_json(text: &str) -> (r: Option<Json>)
    ensures
        !is_json_text(text@) ==> r is None,
        r matches Some(j) ==> models(j, json_of(text@)),
        is_json_text(text@) && depth_of(json_of(text@)) < MAX_DEPTH ==> r is Some,
{
    tree_of_text(text, MAX_DEPTH)
}

/// A string member.
pub fn text(s: &str) -> (r: Json)
    ensures
        r matches Json::Str(t) && t@ == s@,
{
    Json::Str(String::from_str(s))
}

} // verus!
