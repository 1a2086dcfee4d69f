use assimilator::json::{get_field, Json};
use assimilator::provider::{
    accept_reply, decimal_text, decode_reply, generate_headers, job_status, read_attempt, temperature_text,
    training_file_id, AttemptError, ConfigError, DispatchError, OpenAI, TransportError,
};
use assimilator::record::{instruction_response_format, Field, Instruction, OutputFormat, ParseError};
use assimilator::retry::RetryState;
use assimilator::train::{Job, Trainable, Trainer};
use assimilator::config::ToVecString;

fn s(x: &str) -> String {
    x.to_string()
}

#[test]
fn headers_carry_the_bearer_token() {
    let h = generate_headers(Some("sk-123")).unwrap();
    assert_eq!(h, vec![(s("authorization"), s("Bearer sk-123")), (s("content-type"), s("application/json"))]);
}

#[test]
fn missing_credential_is_a_config_error() {
    assert_eq!(generate_headers(None), Err(ConfigError::MissingCredential));
}

#[test]
fn credential_with_a_newline_is_malformed() {
    assert_eq!(generate_headers(Some("sk\n1")), Err(ConfigError::MalformedCredential));
}

#[test]
fn dispatch_without_credential_fails_before_sending() {
    let llm = OpenAI::new(s("m"), 100, 16000);
    let r = llm.begin_dispatch(None, "sys", "user", OutputFormat::String);
    assert_eq!(r, Err(DispatchError::Config(ConfigError::MissingCredential)));
    let r = llm.begin_dispatch(Some("bad\u{7f}"), "sys", "user", OutputFormat::Json);
    assert_eq!(r, Err(DispatchError::Config(ConfigError::MalformedCredential)));
}

#[test]
fn dispatch_with_credential_starts_at_the_first_attempt() {
    let llm = OpenAI::new(s("m"), 100, 16000).with_retries(5).with_delay(250);
    let (req, state) = llm.begin_dispatch(Some("k"), "sys", "user", OutputFormat::String).unwrap();
    assert_eq!(state, RetryState { retries: 0, delay_ms: 250 });
    assert_eq!(req.headers[0], (s("authorization"), s("Bearer k")));
    assert_eq!(get_field(&req.body, "model"), Some(&Json::Str(s("m"))));
    assert_eq!(llm.retry_policy().max_retries, 5);
}

#[test]
fn numbers_are_written_in_decimal() {
    assert_eq!(decimal_text(0), "0");
    assert_eq!(decimal_text(16000), "16000");
    assert_eq!(decimal_text(u64::MAX), u64::MAX.to_string());
    assert_eq!(temperature_text(100), "1.00");
    assert_eq!(temperature_text(5), "0.05");
    assert_eq!(temperature_text(1234), "12.34");
}

#[test]
fn request_body_without_format_hint() {
    let llm = OpenAI::new(s("gpt"), 70, 300);
    let body = llm.generate_request_body("S", "U", OutputFormat::String);
    let msg = |role: &str, content: &str| {
        Json::Object(vec![(s("role"), Json::Str(s(role))), (s("content"), Json::Str(s(content)))])
    };
    let expected = Json::Object(vec![
        (s("model"), Json::Str(s("gpt"))),
        (s("messages"), Json::Array(vec![msg("system", "S"), msg("user", "U")])),
        (s("temperature"), Json::Number(s("0.70"))),
        (s("max_tokens"), Json::Number(s("300"))),
    ]);
    assert_eq!(body, expected);
}

#[test]
fn request_body_hints() {
    let llm = OpenAI::new(s("gpt"), 100, 10);
    let body = llm.generate_request_body("S", "U", OutputFormat::Json);
    assert_eq!(
        get_field(&body, "response_format"),
        Some(&Json::Object(vec![(s("type"), Json::Str(s("json_object")))]))
    );
    let body = llm.generate_request_body("S", "U", OutputFormat::StrictJson(instruction_response_format()));
    assert_eq!(get_field(&body, "response_format"), Some(&instruction_response_format()));
}

#[test]
fn reply_with_error_status_keeps_the_body() {
    assert_eq!(
        decode_reply(429, s("slow down")),
        Err(TransportError::Http { status: 429, body: s("slow down") })
    );
}

#[test]
fn reply_content_is_taken_from_the_first_choice() {
    let body = r#"{"choices":[{"message":{"role":"assistant","content":"hello"}},{"message":{"content":"no"}}]}"#;
    assert_eq!(decode_reply(200, s(body)), Ok(s("hello")));
}

#[test]
fn reply_of_wrong_shape() {
    assert_eq!(decode_reply(200, s(r#"{"choices":[]}"#)), Err(TransportError::Shape));
    assert_eq!(decode_reply(200, s(r#"{"choices":[{"message":{"content":3}}]}"#)), Err(TransportError::Shape));
    assert_eq!(decode_reply(201, s("<html>")), Err(TransportError::Shape));
}

#[test]
fn attempt_reads_the_record() {
    let body = r#"{"choices":[{"message":{"content":"{\"instruction\":\"Q\",\"response\":\"A\"}"}}]}"#;
    let r = read_attempt::<Instruction>(200, s(body));
    assert_eq!(r, Ok(Instruction { instruction: s("Q"), response: s("A") }));
    let body = r#"{"choices":[{"message":{"content":"{\"instruction\":\"Q\"}"}}]}"#;
    let r = read_attempt::<Instruction>(200, s(body));
    assert_eq!(r, Err(AttemptError::Parse(ParseError::Missing(Field::Response))));
    let r = read_attempt::<Instruction>(500, s("down"));
    assert_eq!(r, Err(AttemptError::Transport(TransportError::Http { status: 500, body: s("down") })));
}

#[test]
fn training_answers_are_read() {
    assert_eq!(training_file_id(r#"{"object":"file","id":"file-1"}"#), Ok(s("file-1")));
    assert_eq!(training_file_id("null"), Err(TransportError::Shape));
    assert_eq!(training_file_id(r#"{"id":7}"#), Err(TransportError::Shape));
    assert_eq!(job_status(r#"{"status":"queued","id":"ftjob-1"}"#), Ok(s("queued")));
    assert_eq!(job_status("not json"), Err(TransportError::Shape));
    let llm = OpenAI::new(s("gpt"), 100, 10);
    let body = llm.fine_tuning_job_body("file-1");
    assert_eq!(
        body,
        Json::Object(vec![(s("training_file"), Json::Str(s("file-1"))), (s("model"), Json::Str(s("gpt")))])
    );
}

#[test]
fn replies_are_accepted_on_success_only() {
    assert_eq!(accept_reply(200, s("ok")), Ok(s("ok")));
    assert_eq!(accept_reply(404, s("gone")), Err(TransportError::Http { status: 404, body: s("gone") }));
}

#[test]
fn pending_job_takes_its_id_from_the_bits() {
    let j = Job::pending(0x0123_4567_89ab_cdef_0123_4567_89ab_cdef);
    assert_eq!(j.job_id, "01234567-89ab-cdef-0123-456789abcdef");
    assert_eq!(j.status, "pending");
    assert_eq!(j.output_model, "");
}

#[test]
fn trainer_opens_a_pending_job() {
    let t = Trainer::new(s("out.jsonl"), s("gpt"));
    let a = t.train();
    let b = t.train();
    assert_eq!(a.status, "pending");
    assert_eq!(a.output_model, "");
    assert_eq!(a.job_id.len(), 36);
    assert_ne!(a.job_id, b.job_id);
}

#[test]
fn strings_are_copied() {
    let v = vec![s("a"), s("b")];
    assert_eq!(v[..].to_vec_string(), v);
}
