use assimilator::json::{get_field, parse_json, Json};
use assimilator::record::{
    instruction_response_format, tuned_prompts_response_format, Field, FromLLMResponse, Instruction,
    OutputFormat, ParseError, TunedPrompts,
};

#[test]
fn instruction_parses_both_members() {
    let r = Instruction::parse(r#"{"instruction":"Q","response":"A"}"#);
    assert_eq!(r, Ok(Instruction { instruction: "Q".to_string(), response: "A".to_string() }));
}

#[test]
fn instruction_missing_response_is_rejected() {
    let r = Instruction::parse(r#"{"instruction":"Q"}"#);
    assert_eq!(r, Err(ParseError::Missing(Field::Response)));
}

#[test]
fn instruction_missing_instruction_is_rejected() {
    let r = Instruction::parse(r#"{"response":"A"}"#);
    assert_eq!(r, Err(ParseError::Missing(Field::Instruction)));
}

#[test]
fn instruction_member_of_wrong_kind_is_rejected() {
    let r = Instruction::parse(r#"{"instruction":"Q","response":7}"#);
    assert_eq!(r, Err(ParseError::WrongType(Field::Response)));
}

#[test]
fn instruction_from_text_that_is_not_json() {
    assert_eq!(Instruction::parse("not json at all"), Err(ParseError::NotJson));
}

#[test]
fn instruction_from_a_json_array() {
    assert_eq!(Instruction::parse("[1, 2]"), Err(ParseError::Missing(Field::Instruction)));
}

#[test]
fn instruction_keeps_extra_members_out() {
    let r = Instruction::parse(r#"{"note": {"x": [1, 2.5, null, true]}, "response":"R", "instruction":"I"}"#);
    assert_eq!(r, Ok(Instruction { instruction: "I".to_string(), response: "R".to_string() }));
}

#[test]
fn prompts_parse_in_order() {
    let r = TunedPrompts::parse(r#"{"prompts":["a","b"]}"#);
    assert_eq!(r, Ok(TunedPrompts { prompts: vec!["a".to_string(), "b".to_string()] }));
}

#[test]
fn prompts_empty_array_is_empty_set() {
    let r = TunedPrompts::parse(r#"{"prompts":[]}"#);
    assert_eq!(r, Ok(TunedPrompts { prompts: vec![] }));
}

#[test]
fn prompts_missing_member() {
    assert_eq!(TunedPrompts::parse(r#"{"other":[]}"#), Err(ParseError::Missing(Field::Prompts)));
}

#[test]
fn prompts_not_an_array() {
    assert_eq!(TunedPrompts::parse(r#"{"prompts":"a"}"#), Err(ParseError::WrongType(Field::Prompts)));
}

#[test]
fn prompts_with_a_non_string_item() {
    assert_eq!(TunedPrompts::parse(r#"{"prompts":["a", 3]}"#), Err(ParseError::WrongType(Field::Prompts)));
}

#[test]
fn prompts_from_non_object() {
    assert_eq!(TunedPrompts::parse(r#"["a"]"#), Err(ParseError::NotObject));
}

#[test]
fn prompts_from_broken_json() {
    assert_eq!(TunedPrompts::parse(r#"{"prompts":["a""#), Err(ParseError::NotJson));
}

#[test]
fn trait_reads_records_and_names_formats() {
    let i = <Instruction as FromLLMResponse>::from_llm_response(r#"{"instruction":"x","response":"y"}"#.to_string());
    assert_eq!(i, Ok(Instruction { instruction: "x".to_string(), response: "y".to_string() }));
    let s = <String as FromLLMResponse>::from_llm_response("plain".to_string());
    assert_eq!(s, Ok("plain".to_string()));
    assert_eq!(<String as FromLLMResponse>::output_format(), OutputFormat::String);
    assert_eq!(<Json as FromLLMResponse>::output_format(), OutputFormat::Json);
    assert_eq!(<Json as FromLLMResponse>::from_llm_response("{".to_string()), Err(ParseError::NotJson));
    assert_eq!(
        <Json as FromLLMResponse>::from_llm_response("[true]".to_string()),
        Ok(Json::Array(vec![Json::Bool(true)]))
    );
    assert_eq!(
        <Instruction as FromLLMResponse>::output_format(),
        OutputFormat::StrictJson(instruction_response_format())
    );
    assert_eq!(
        <TunedPrompts as FromLLMResponse>::output_format(),
        OutputFormat::StrictJson(tuned_prompts_response_format())
    );
}

#[test]
fn parse_json_builds_the_tree_in_order() {
    let j = parse_json(r#"{"b": [1, "two", false], "a": null}"#).unwrap();
    let expected = Json::Object(vec![
        ("a".to_string(), Json::Null),
        ("b".to_string(), Json::Array(vec![Json::Number("1".to_string()), Json::Str("two".to_string()), Json::Bool(false)])),
    ]);
    assert_eq!(j, expected);
    assert_eq!(get_field(&j, "a"), Some(&Json::Null));
    assert_eq!(get_field(&j, "c"), None);
}

#[test]
fn instruction_schema_requires_both_members() {
    let schema = instruction_response_format();
    let inner = get_field(&schema, "json_schema").unwrap();
    assert_eq!(get_field(inner, "name"), Some(&Json::Str("instruction".to_string())));
    assert_eq!(get_field(inner, "strict"), Some(&Json::Bool(true)));
    let body = get_field(inner, "schema").unwrap();
    assert_eq!(
        get_field(body, "required"),
        Some(&Json::Array(vec![Json::Str("instruction".to_string()), Json::Str("response".to_string())]))
    );
    assert_eq!(get_field(&schema, "type"), Some(&Json::Str("json_schema".to_string())));
}

#[test]
fn nested_values_keep_their_numbers_and_strings() {
    let j = parse_json(r#"{"x": {"y": [0.1, -3, "a\"b"]}}"#).unwrap();
    let inner = Json::Array(vec![
        Json::Number("0.1".to_string()),
        Json::Number("-3".to_string()),
        Json::Str("a\"b".to_string()),
    ]);
    let expected = Json::Object(vec![("x".to_string(), Json::Object(vec![("y".to_string(), inner)]))]);
    assert_eq!(j, expected);
    assert_eq!(parse_json("[1,"), None);
}

#[test]
fn deep_nesting_is_refused_by_the_reader() {
    let text = format!("{}{}", "[".repeat(300), "]".repeat(300));
    assert_eq!(parse_json(&text), None);
}
