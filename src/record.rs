use vstd::prelude::*;
use vstd::string::*;
use crate::json::{MAX_DEPTH, depth_of, Json, JsonLevel, JsonModel, is_json_text, json_of, level_member, level_of, model_field, models, parse_json, read_level, text};
use crate::provider::is_str_of;

verus! {

/// The members a response contract reads.
#[derive(Clone, Copy, Debug, PartialEq, Eq, Structural)]
pub enum Field {
    Instruction,
    Response,
    Prompts,
}

/// Why a model's answer could not be read as the requested record.
#[derive(Clone, Copy, Debug, PartialEq, Eq, Structural)]
pub enum ParseError {
    /// The answer is not a well-formed JSON document.
    NotJson,
    /// The answer is JSON but not an object.
    NotObject,
    /// A required member is absent.
    Missing(Field),
    /// A member is present with the wrong kind of value.
    WrongType(Field),
}

/// The name of a member as it stands in the JSON answer.
pub open spec fn field_name(f: Field) -> Seq<char> {
    match f {
        Field::Instruction => "instruction"@,
        Field::Response => "response"@,
        Field::Prompts => "prompts"@,
    }
}

/// The wire-level answer format that a record type asks the model for.
#[derive(Debug, PartialEq)]
pub enum OutputFormat {
    String,
    Json,
    StrictJson(Json),
}

/// One instruction/response training pair.
#[derive(Debug, PartialEq)]
pub struct Instruction {
    pub instruction: String,
    pub response: String,
}

/// A set of instruction-generation prompts, in the model's order.
#[derive(Debug, PartialEq)]
pub struct TunedPrompts {
    pub prompts: Vec<String>,
}

/// The string member `f` of `m`.
pub open spec fn string_member(m: JsonModel, f: Field) -> Result<Seq<char>, ParseError> {
    match model_field(m, field_name(f)) {
        None => Err(ParseError::Missing(f)),
        Some(JsonModel::Str(s)) => Ok(s),
        Some(_) => Err(ParseError::WrongType(f)),
    }
}

/// What an instruction record read from `m` holds: its instruction and its response.
pub open spec fn instruction_of(m: JsonModel) -> Result<(Seq<char>, Seq<char>), ParseError> {
    match string_member(m, Field::Instruction) {
        Err(e) => Err(e),
        Ok(i) => match string_member(m, Field::Response) {
            Err(e) => Err(e),
            Ok(r) => Ok((i, r)),
        },
    }
}

pub open spec fn is_str(m: JsonModel) -> bool {
    m is Str
}

pub open spec fn str_view(m: JsonModel) -> Seq<char> {
    match m {
        JsonModel::Str(s) => s,
        _ => Seq::empty(),
    }
}

/// What a prompt set read from `m` holds: the strings of its `prompts` array, in order.
pub open spec fn prompts_of(m: JsonModel) -> Result<Seq<Seq<char>>, ParseError> {
    if !(m is Object) {
        Err(ParseError::NotObject)
    } else {
        match model_field(m, field_name(Field::Prompts)) {
            None => Err(ParseError::Missing(Field::Prompts)),
            Some(JsonModel::Array(items)) => if forall|i: int| 0 <= i < items.len() ==> is_str(#[trigger] items[i]) {
                Ok(items.map_values(|x: JsonModel| str_view(x)))
            } else {
                Err(ParseError::WrongType(Field::Prompts))
            },
            Some(_) => Err(ParseError::WrongType(Field::Prompts)),
        }
    }
}

/// What reading an answer text as an instruction record gives.
pub open spec fn instruction_from_text(t: Seq<char>) -> Result<(Seq<char>, Seq<char>), ParseError> {
    if is_json_text(t) {
        instruction_of(json_of(t))
    } else {
        Err(ParseError::NotJson)
    }
}

/// What reading an answer text as a prompt set gives.
pub open spec fn prompts_from_text(t: Seq<char>) -> Result<Seq<Seq<char>>, ParseError> {
    if is_json_text(t) {
        prompts_of(json_of(t))
    } else {
        Err(ParseError::NotJson)
    }
}

pub open spec fn strings_view(v: Seq<String>) -> Seq<Seq<char>> {
    v.map_values(|s: String| s@)
}

fn member_name(f: Field) -> (r: String)
    ensures
        r@ == field_name(f),
{
    let r = match f {
        Field::Instruction => String::from_str("instruction"),
        Field::Response => String::from_str("response"),
        Field::Prompts => String::from_str("prompts"),
    };
    proof {
        reveal_strlit("instruction");
        reveal_strlit("response");
        reveal_strlit("prompts");
    }
    r
}

fn read_string_member(l: &JsonLevel, f: Field, Ghost(m): Ghost<JsonModel>) -> (r: Result<String, ParseError>)
    requires
        level_of(*l, m),
    ensures
        match r {
            Ok(s) => string_member(m, f) == Ok::<Seq<char>, ParseError>(s@),
            Err(e) => string_member(m, f) == Err::<Seq<char>, ParseError>(e),
        },
{
    let name = member_name(f);
    let child = match level_member(l, name.as_str(), Ghost(m)) {
        Some(t) => t,
        None => return Err(ParseError::Missing(f)),
    };
    match read_level(child.as_str()) {
        Some(JsonLevel::Str(s)) => Ok(s),
        _ => Err(ParseError::WrongType(f)),
    }
}

impl Instruction {
    /// Reads an instruction record from the model's raw answer: a JSON document
    /// whose members `instruction` and `response` are both strings.
    pub fn parse(answer: &str) -> (r: Result<Instruction, ParseError>)
        ensures
            match r {
                Ok(i) => instruction_from_text(answer@) == Ok::<(Seq<char>, Seq<char>), ParseError>((i.instruction@, i.response@)),
                Err(e) => instruction_from_text(answer@) == Err::<(Seq<char>, Seq<char>), ParseError>(e),
            },
    {
        let level = match read_level(answer) {
            Some(l) => l,
            None => return Err(ParseError::NotJson),
        };
        let ghost m = json_of(answer@);
        let instruction = match read_string_member(&level, Field::Instruction, Ghost(m)) {
            Ok(s) => s,
            Err(e) => return Err(e),
        };
        let response = match read_string_member(&level, Field::Response, Ghost(m)) {
            Ok(s) => s,
            Err(e) => return Err(e),
        };
        Ok(Instruction { instruction, response })
    }
}

impl TunedPrompts {
    /// Reads a prompt set from the model's raw answer: a JSON object whose
    /// `prompts` member is an array of strings. An empty array gives an empty set.
    pub fn parse(answer: &str) -> (r: Result<TunedPrompts, ParseError>)
        ensures
            match r {
                Ok(t) => prompts_from_text(answer@) == Ok::<Seq<Seq<char>>, ParseError>(strings_view(t.prompts@)),
                Err(e) => prompts_from_text(answer@) == Err::<Seq<Seq<char>>, ParseError>(e),
            },
    {
        let level = match read_level(answer) {
            Some(l) => l,
            None => return Err(ParseError::NotJson),
        };
        let ghost m = json_of(answer@);
        if !matches!(level, JsonLevel::Object(_)) {
            return Err(ParseError::NotObject);
        }
        let name = member_name(Field::Prompts);
        let child = match level_member(&level, name.as_str(), Ghost(m)) {
            Some(t) => t,
            None => return Err(ParseError::Missing(Field::Prompts)),
        };
        let items = match read_level(child.as_str()) {
            Some(JsonLevel::Array(items)) => items,
            _ => return Err(ParseError::WrongType(Field::Prompts)),
        };
        let ghost ms = json_of(child@)->Array_0;
        let mut prompts: Vec<String> = Vec::new();
        let mut i: usize = 0;
        while i < items.len()
            invariant
                i <= items@.len(),
                prompts@.len() == i,
                items@.len() == ms.len(),
                is_json_text(answer@),
                m == json_of(answer@),
                m is Object,
                model_field(m, field_name(Field::Prompts)) == Some(JsonModel::Array(ms)),
                forall|k: int| 0 <= k < items@.len() ==> is_json_text(#[trigger] items@[k]@) && json_of(items@[k]@) == ms[k],
                forall|k: int| 0 <= k < i ==> is_str(#[trigger] ms[k]),
                forall|k: int| 0 <= k < i ==> (#[trigger] prompts@[k])@ == str_view(ms[k]),
            decreases items@.len() - i,
        {
            match read_level(items[i].as_str()) {
                Some(JsonLevel::Str(s)) => prompts.push(s),
                _ => {
                    assert(!is_str(ms[i as int]));
                    return Err(ParseError::WrongType(Field::Prompts));
                },
            }
            i = i + 1;
        }
        assert(strings_view(prompts@) =~= ms.map_values(|x: JsonModel| str_view(x)));
        Ok(TunedPrompts { prompts })
    }
}

/// A member of an object.
fn member(key: &str, value: Json) -> (r: (String, Json))
    ensures
        r.0@ == key@,
        r.1 == value,
{
    (String::from_str(key), value)
}

/// `{"type": kind}`
pub open spec fn is_typed(j: Json, kind: Seq<char>) -> bool {
    j matches Json::Object(fs) && fs@.len() == 1 && fs@[0].0@ == "type"@ && is_str_of(fs@[0].1, kind)
}

/// The properties and the required list of a strict JSON-schema answer format
/// named `name`, for an object that allows no other members; none where `j` is
/// not such a format.
pub open spec fn schema_body(j: Json, name: Seq<char>) -> Option<(Seq<(String, Json)>, Seq<Json>)> {
    match j {
        Json::Object(fs) => if fs@.len() == 2 && fs@[0].0@ == "type"@ && is_str_of(fs@[0].1, "json_schema"@)
            && fs@[1].0@ == "json_schema"@ {
            match fs@[1].1 {
                Json::Object(gs) => if gs@.len() == 3 && gs@[0].0@ == "name"@ && is_str_of(gs@[0].1, name)
                    && gs@[1].0@ == "strict"@ && gs@[1].1 == Json::Bool(true) && gs@[2].0@ == "schema"@ {
                    match gs@[2].1 {
                        Json::Object(hs) => if hs@.len() == 4 && hs@[0].0@ == "type"@ && is_str_of(hs@[0].1, "object"@)
                            && hs@[1].0@ == "properties"@ && hs@[2].0@ == "required"@
                            && hs@[3].0@ == "additionalProperties"@ && hs@[3].1 == Json::Bool(false) {
                            match (hs@[1].1, hs@[2].1) {
                                (Json::Object(ps), Json::Array(rs)) => Some((ps@, rs@)),
                                _ => None,
                            }
                        } else {
                            None
                        },
                        _ => None,
                    }
                } else {
                    None
                },
                _ => None,
            }
        } else {
            None
        },
        _ => None,
    }
}

fn typed(kind: &str) -> (r: Json)
    ensures
        is_typed(r, kind@),
{
    let r = Json::Object(vec![member("type", text(kind))]);
    proof {
        reveal_strlit("type");
    }
    r
}

/// A strict JSON-schema answer format named `name`, for an object with the given
/// properties, all of them required and no others allowed.
fn strict_schema(name: &str, properties: Vec<(String, Json)>, required: Vec<Json>) -> (r: Json)
    ensures
        schema_body(r, name@) == Some((properties@, required@)),
{
    let ghost ps = properties@;
    let ghost rs = required@;
    let schema = Json::Object(vec![
        member("type", text("object")),
        member("properties", Json::Object(properties)),
        member("required", Json::Array(required)),
        member("additionalProperties", Json::Bool(false)),
    ]);
    let json_schema = Json::Object(vec![
        member("name", text(name)),
        member("strict", Json::Bool(true)),
        member("schema", schema),
    ]);
    let r = Json::Object(vec![member("type", text("json_schema")), member("json_schema", json_schema)]);
    proof {
        reveal_strlit("type");
        reveal_strlit("object");
        reveal_strlit("properties");
        reveal_strlit("required");
        reveal_strlit("additionalProperties");
        reveal_strlit("name");
        reveal_strlit("strict");
        reveal_strlit("schema");
        reveal_strlit("json_schema");
    }
    r
}

/// The answer format for instruction records: an object with the string members
/// `instruction` and `response`, both required.
pub fn instruction_response_format() -> (r: Json)
    ensures
        is_instruction_schema(r),
{
    let r = strict_schema(
        "instruction",
        vec![member("instruction", typed("string")), member("response", typed("string"))],
        vec![text("instruction"), text("response")],
    );
    r
}

/// The answer format for prompt sets: an object whose required member `prompts`
/// is an array of strings.
pub fn tuned_prompts_response_format() -> (r: Json)
    ensures
        is_prompts_schema(r),
{
    let items = Json::Object(vec![member("type", text("array")), member("items", typed("string"))]);
    proof {
        reveal_strlit("type");
        reveal_strlit("items");
    }
    strict_schema("prompts", vec![member("prompts", items)], vec![text("prompts")])
}

/// The instruction schema: an object with the string members `instruction` and
/// `response`, both required.
pub open spec fn is_instruction_schema(r: Json) -> bool {
    schema_body(r, "instruction"@) matches Some((ps, rs)) && ps.len() == 2
        && ps[0].0@ == "instruction"@ && is_typed(ps[0].1, "string"@)
        && ps[1].0@ == "response"@ && is_typed(ps[1].1, "string"@)
        && rs.len() == 2 && is_str_of(rs[0], "instruction"@) && is_str_of(rs[1], "response"@)
}

/// The prompt-set schema: an object whose required member `prompts` is an array
/// of strings.
pub open spec fn is_prompts_schema(r: Json) -> bool {
    schema_body(r, "prompts"@) matches Some((ps, rs)) && ps.len() == 1 && ps[0].0@ == "prompts"@
        && (ps[0].1 matches Json::Object(items) && items@.len() == 2
            && items@[0].0@ == "type"@ && is_str_of(items@[0].1, "array"@)
            && items@[1].0@ == "items"@ && is_typed(items@[1].1, "string"@))
        && rs.len() == 1 && is_str_of(rs[0], "prompts"@)
}

/// A record type that the model can be asked for: the answer format it needs and
/// how its raw answer is read.
pub trait FromLLMResponse: Sized {
    /// Reading the answer `text` gives `r`.
    spec fn reads(text: Seq<char>, r: Result<Self, ParseError>) -> bool;

    /// `f` is the answer format this record type asks for.
    spec fn is_format(f: OutputFormat) -> bool;

    fn from_llm_response(response: String) -> (r: Result<Self, ParseError>)
        ensures
            Self::reads(response@, r);

    fn output_format() -> (r: OutputFormat)
        ensures
            Self::is_format(r);
}

impl FromLLMResponse for String {
    open spec fn reads(text: Seq<char>, r: Result<Self, ParseError>) -> bool {
        r matches Ok(s) && s@ == text
    }

    open spec fn is_format(f: OutputFormat) -> bool {
        f is String
    }

    fn from_llm_response(response: String) -> (r: Result<Self, ParseError>) {
        Ok(response)
    }

    fn output_format() -> (r: OutputFormat) {
        OutputFormat::String
    }
}

impl FromLLMResponse for Json {
    open spec fn reads(text: Seq<char>, r: Result<Self, ParseError>) -> bool {
        &&& !is_json_text(text) ==> r == Err::<Json, ParseError>(ParseError::NotJson)
        &&& r matches Ok(j) ==> models(j, json_of(text))
        &&& r matches Err(e) ==> e == ParseError::NotJson
        &&& is_json_text(text) && depth_of(json_of(text)) < MAX_DEPTH ==> r is Ok
    }

    open spec fn is_format(f: OutputFormat) -> bool {
        f is Json
    }

    fn from_llm_response(response: String) -> (r: Result<Self, ParseError>) {
        match parse_json(response.as_str()) {
            Some(j) => Ok(j),
            None => Err(ParseError::NotJson),
        }
    }

    fn output_format() -> (r: OutputFormat) {
        OutputFormat::Json
    }
}

impl FromLLMResponse for TunedPrompts {
    open spec fn reads(text: Seq<char>, r: Result<Self, ParseError>) -> bool {
        match r {
            Ok(t) => prompts_from_text(text) == Ok::<Seq<Seq<char>>, ParseError>(strings_view(t.prompts@)),
            Err(e) => prompts_from_text(text) == Err::<Seq<Seq<char>>, ParseError>(e),
        }
    }

    open spec fn is_format(f: OutputFormat) -> bool {
        f matches OutputFormat::StrictJson(s) && is_prompts_schema(s)
    }

    fn from_llm_response(response: String) -> (r: Result<Self, ParseError>) {
        TunedPrompts::parse(response.as_str())
    }

    fn output_format() -> (r: OutputFormat) {
        OutputFormat::StrictJson(tuned_prompts_response_format())
    }
}

impl FromLLMResponse for Instruction {
    open spec fn reads(text: Seq<char>, r: Result<Self, ParseError>) -> bool {
        match r {
            Ok(i) => instruction_from_text(text) == Ok::<(Seq<char>, Seq<char>), ParseError>((i.instruction@, i.response@)),
            Err(e) => instruction_from_text(text) == Err::<(Seq<char>, Seq<char>), ParseError>(e),
        }
    }

    open spec fn is_format(f: OutputFormat) -> bool {
        f matches OutputFormat::StrictJson(s) && is_instruction_schema(s)
    }

    fn from_llm_response(response: String) -> (r: Result<Self, ParseError>) {
        Instruction::parse(response.as_str())
    }

    fn output_format() -> (r: OutputFormat) {
        OutputFormat::StrictJson(instruction_response_format())
    }
}

} // verus!
