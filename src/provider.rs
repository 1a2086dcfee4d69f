use vstd::prelude::*;
use vstd::string::*;
use crate::json::{Json, JsonLevel, JsonModel, is_json_text, json_of, level_member, level_of, model_field, read_level, text};
use crate::record::{FromLLMResponse, OutputFormat, ParseError};
use crate::retry::{RetryPolicy, RetryState};

verus! {

/// Why a provider cannot be set up to send requests.
#[derive(Clone, Copy, Debug, PartialEq, Eq, Structural)]
pub enum ConfigError {
    /// No credential was supplied.
    MissingCredential,
    /// The credential cannot stand in an HTTP header.
    MalformedCredential,
}

/// Why one round trip to the backend gave no usable text.
#[derive(Debug, PartialEq)]
pub enum TransportError {
    /// The backend answered with a status outside 200..=299.
    Http { status: u16, body: String },
    /// The answer's envelope is not the expected shape.
    Shape,
}

/// Why one attempt failed; every such failure is worth another attempt.
#[derive(Debug, PartialEq)]
pub enum AttemptError {
    Transport(TransportError),
    Parse(ParseError),
}

/// Why a dispatch failed as a whole.
#[derive(Debug, PartialEq)]
pub enum DispatchError {
    /// The provider is not configured; nothing was sent.
    Config(ConfigError),
    /// Every attempt failed; the last failure, after `retries` retries.
    Exhausted { retries: u32, last: AttemptError },
}

/// One request, ready to send: its headers and its JSON body.
#[derive(Debug, PartialEq)]
pub struct Request {
    pub headers: Vec<(String, String)>,
    pub body: Json,
}

/// A chat-completion backend: the model asked, how it is asked, and how
/// failures are retried.
#[derive(Debug, PartialEq)]
pub struct OpenAI {
    pub model: String,
    /// Sampling temperature in hundredths: 100 is a temperature of 1.0.
    pub temperature_hundredths: u32,
    pub max_tokens: u32,
    pub max_retries: u32,
    pub delay_ms: u64,
}

/// A byte that an HTTP header value may hold, seen through the character it belongs to.
pub open spec fn header_char_ok(c: char) -> bool {
    (c as u32 >= 32 && c as u32 != 127) || c == '\t'
}

pub open spec fn header_text_ok(s: Seq<char>) -> bool {
    forall|i: int| 0 <= i < s.len() ==> header_char_ok(#[trigger] s[i])
}

/// Relies on reqwest::header::HeaderValue::from_str: it accepts a text exactly when
/// every byte is a tab or at least 32 and not 127; the bytes of a character
/// outside ASCII are all above 127.
#[verifier::external_body]
fn is_header_value(s: &str) -> (r: bool)
    ensures
        r == header_text_ok(s@),
{
    reqwest::header::HeaderValue::from_str(s).is_ok()
}

pub open spec fn bearer_prefix() -> Seq<char> {
    "Bearer "@
}

/// The headers a credential gives, or why it gives none.
pub open spec fn headers_for(api_key: Option<Seq<char>>) -> Result<Seq<(Seq<char>, Seq<char>)>, ConfigError> {
    match api_key {
        None => Err(ConfigError::MissingCredential),
        Some(k) => if header_text_ok(bearer_prefix() + k) {
            Ok(
                seq![
                    ("authorization"@, bearer_prefix() + k),
                    (
                        "content-type"@,
                        "application/json"@,
                    ),
                ],
            )
        } else {
            Err(ConfigError::MalformedCredential)
        },
    }
}

pub open spec fn key_view(api_key: Option<&str>) -> Option<Seq<char>> {
    match api_key {
        Some(k) => Some(k@),
        None => None,
    }
}

pub open spec fn pairs_view(v: Seq<(String, String)>) -> Seq<(Seq<char>, Seq<char>)> {
    v.map_values(|p: (String, String)| (p.0@, p.1@))
}

/// The authorization and content-type headers for a credential.
pub fn generate_headers(api_key: Option<&str>) -> (r: Result<Vec<(String, String)>, ConfigError>)
    ensures
        match r {
            Ok(h) => headers_for(key_view(api_key)) == Ok::<Seq<(Seq<char>, Seq<char>)>, ConfigError>(
                pairs_view(h@),
            ),
            Err(e) => headers_for(key_view(api_key)) == Err::<Seq<(Seq<char>, Seq<char>)>, ConfigError>(e),
        },
{
    let key = match api_key {
        None => return Err(ConfigError::MissingCredential),
        Some(k) => k,
    };
    let mut value = String::from_str("Bearer ");
    value.append(key);
    proof {
        reveal_strlit("Bearer ");
    }
    assert(value@ =~= bearer_prefix() + key@);
    if !is_header_value(value.as_str()) {
        return Err(ConfigError::MalformedCredential);
    }
    let h = vec![
        (String::from_str("authorization"), value),
        (String::from_str("content-type"), String::from_str("application/json")),
    ];
    proof {
        reveal_strlit("authorization");
        reveal_strlit("content-type");
        reveal_strlit("application/json");
        assert(value@ == bearer_prefix() + key@);
        assert(pairs_view(h@) =~= headers_for(key_view(api_key))->Ok_0);
    }
    Ok(h)
}

pub open spec fn digit_char(d: nat) -> char {
    if d == 0 { '0' }
    else if d == 1 { '1' }
    else if d == 2 { '2' }
    else if d == 3 { '3' }
    else if d == 4 { '4' }
    else if d == 5 { '5' }
    else if d == 6 { '6' }
    else if d == 7 { '7' }
    else if d == 8 { '8' }
    else { '9' }
}

/// The decimal numeral of `n`.
pub open spec fn decimal(n: nat) -> Seq<char>
    decreases n,
{
    if n < 10 {
        seq![digit_char(n)]
    } else {
        decimal(n / 10) + seq![digit_char(n % 10)]
    }
}

/// The decimal numeral of a temperature given in hundredths, with two places.
pub open spec fn hundredths_text(h: nat) -> Seq<char> {
    decimal(h / 100) + seq!['.', digit_char((h % 100) / 10), digit_char(h % 10)]
}

fn digit(d: u64) -> (r: String)
    requires
        d < 10,
    ensures
        r@ == seq![digit_char(d as nat)],
{
    let s = if d == 0 { "0" }
        else if d == 1 { "1" }
        else if d == 2 { "2" }
        else if d == 3 { "3" }
        else if d == 4 { "4" }
        else if d == 5 { "5" }
        else if d == 6 { "6" }
        else if d == 7 { "7" }
        else if d == 8 { "8" }
        else { "9" };
    proof {
        reveal_strlit("0");
        reveal_strlit("1");
        reveal_strlit("2");
        reveal_strlit("3");
        reveal_strlit("4");
        reveal_strlit("5");
        reveal_strlit("6");
        reveal_strlit("7");
        reveal_strlit("8");
        reveal_strlit("9");
    }
    String::from_str(s)
}

/// Writes `n` in decimal.
pub fn decimal_text(n: u64) -> (r: String)
    ensures
        r@ == decimal(n as nat),
    decreases n,
{
    if n < 10 {
        digit(n)
    } else {
        let mut r = decimal_text(n / 10);
        let d = digit(n % 10);
        r.append(d.as_str());
        r
    }
}

/// Writes a temperature given in hundredths as a decimal number with two places.
pub fn temperature_text(h: u32) -> (r: String)
    ensures
        r@ == hundredths_text(h as nat),
{
    let mut r = decimal_text((h / 100) as u64);
    r.append(".");
    let tens = digit(((h % 100) / 10) as u64);
    let ones = digit((h % 10) as u64);
    r.append(tens.as_str());
    r.append(ones.as_str());
    proof {
        reveal_strlit(".");
        assert(r@ =~= hundredths_text(h as nat));
    }
    r
}

pub open spec fn is_str_of(j: Json, s: Seq<char>) -> bool {
    j matches Json::Str(t) && t@ == s
}

pub open spec fn is_number_of(j: Json, s: Seq<char>) -> bool {
    j matches Json::Number(t) && t@ == s
}

/// `{"role": role, "content": content}`
pub open spec fn is_message(j: Json, role: Seq<char>, content: Seq<char>) -> bool {
    j matches Json::Object(fs) && fs@.len() == 2
        && fs@[0].0@ == "role"@ && is_str_of(fs@[0].1, role)
        && fs@[1].0@ == "content"@ && is_str_of(fs@[1].1, content)
}

pub open spec fn system_role() -> Seq<char> {
    "system"@
}

pub open spec fn user_role() -> Seq<char> {
    "user"@
}

pub open spec fn assistant_role() -> Seq<char> {
    "assistant"@
}

/// `{"type": "json_object"}`
pub open spec fn is_json_object_hint(j: Json) -> bool {
    j matches Json::Object(fs) && fs@.len() == 1
        && fs@[0].0@ == "type"@
        && is_str_of(fs@[0].1, "json_object"@)
}

pub(crate) fn message(role: &str, content: &str) -> (r: Json)
    ensures
        is_message(r, role@, content@),
{
    let r = Json::Object(vec![(String::from_str("role"), text(role)), (String::from_str("content"), text(content))]);
    proof {
        reveal_strlit("role");
        reveal_strlit("content");
    }
    r
}

/// What the model is asked for in a completion request's `response_format`.
pub open spec fn format_hint_ok(format: OutputFormat, hint: Option<Json>) -> bool {
    match format {
        OutputFormat::String => hint is None,
        OutputFormat::Json => hint matches Some(h) && is_json_object_hint(h),
        OutputFormat::StrictJson(schema) => hint == Some(schema),
    }
}

impl OpenAI {
    /// A backend for `model`, with three retries one second apart at first.
    pub fn new(model: String, temperature_hundredths: u32, max_tokens: u32) -> (r: OpenAI)
        ensures
            r.model == model,
            r.temperature_hundredths == temperature_hundredths,
            r.max_tokens == max_tokens,
            r.max_retries == 3,
            r.delay_ms == 1000,
    {
        OpenAI { model, temperature_hundredths, max_tokens, max_retries: 3, delay_ms: 1000 }
    }

    pub fn with_retries(self, max_retries: u32) -> (r: OpenAI)
        ensures
            r == (OpenAI { max_retries, ..self }),
    {
        OpenAI { max_retries, ..self }
    }

    pub fn with_delay(self, delay_ms: u64) -> (r: OpenAI)
        ensures
            r == (OpenAI { delay_ms, ..self }),
    {
        OpenAI { delay_ms, ..self }
    }

    /// The retry policy of this backend's dispatches.
    pub fn retry_policy(&self) -> (r: RetryPolicy)
        ensures
            r.max_retries == self.max_retries,
            r.initial_delay_ms == self.delay_ms,
    {
        RetryPolicy { max_retries: self.max_retries, initial_delay_ms: self.delay_ms }
    }

    /// `r` is the chat-completion body for these prompts and this answer format:
    /// model, the system and user messages, temperature, token limit, and the
    /// answer-format hint.
    pub open spec fn is_request_body(&self, sys_prompt: Seq<char>, user_prompt: Seq<char>, output_format: OutputFormat, r: Json) -> bool {
        r matches Json::Object(fs) && {
            let f = fs@;
            &&& f.len() == (if output_format is String { 4int } else { 5 })
            &&& f[0].0@ == "model"@ && is_str_of(f[0].1, self.model@)
            &&& f[1].0@ == "messages"@
            &&& f[1].1 matches Json::Array(ms) && ms@.len() == 2
                && is_message(ms@[0], system_role(), sys_prompt)
                && is_message(ms@[1], user_role(), user_prompt)
            &&& f[2].0@ == "temperature"@
                && is_number_of(f[2].1, hundredths_text(self.temperature_hundredths as nat))
            &&& f[3].0@ == "max_tokens"@
                && is_number_of(f[3].1, decimal(self.max_tokens as nat))
            &&& format_hint_ok(output_format, if f.len() == 5 { Some(f[4].1) } else { None })
            &&& f.len() == 5 ==> f[4].0@ == "response_format"@
        }
    }

    /// The body of a chat-completion request: model, the system and user
    /// messages, temperature and token limit, and the answer-format hint.
    pub fn generate_request_body(&self, sys_prompt: &str, user_prompt: &str, output_format: OutputFormat) -> (r: Json)
        ensures
            self.is_request_body(sys_prompt@, user_prompt@, output_format, r),
    {
        let messages = Json::Array(vec![message("system", sys_prompt), message("user", user_prompt)]);
        let mut fields: Vec<(String, Json)> = vec![
            (String::from_str("model"), Json::Str(self.model.clone())),
            (String::from_str("messages"), messages),
            (String::from_str("temperature"), Json::Number(temperature_text(self.temperature_hundredths))),
            (String::from_str("max_tokens"), Json::Number(decimal_text(self.max_tokens as u64))),
        ];
        proof {
            reveal_strlit("system");
            reveal_strlit("user");
            reveal_strlit("model");
            reveal_strlit("messages");
            reveal_strlit("temperature");
            reveal_strlit("max_tokens");
            reveal_strlit("response_format");
            reveal_strlit("type");
            reveal_strlit("json_object");
        }
        match output_format {
            OutputFormat::String => {},
            OutputFormat::Json => {
                let hint = Json::Object(vec![(String::from_str("type"), text("json_object"))]);
                fields.push((String::from_str("response_format"), hint));
            },
            OutputFormat::StrictJson(schema) => {
                fields.push((String::from_str("response_format"), schema));
            },
        }
        Json::Object(fields)
    }

    /// The body of a request that starts fine-tuning this backend's model on an
    /// uploaded file.
    pub fn fine_tuning_job_body(&self, training_file: &str) -> (r: Json)
        ensures
            r matches Json::Object(fs) && fs@.len() == 2
                && fs@[0].0@ == "training_file"@
                && is_str_of(fs@[0].1, training_file@)
                && fs@[1].0@ == "model"@ && is_str_of(fs@[1].1, self.model@),
    {
        let r = Json::Object(vec![
            (String::from_str("training_file"), text(training_file)),
            (String::from_str("model"), Json::Str(self.model.clone())),
        ]);
        proof {
            reveal_strlit("training_file");
            reveal_strlit("model");
        }
        r
    }

    /// Starts a dispatch: the request to send and the retry state of its first
    /// attempt. Without a usable credential the dispatch fails at once with a
    /// configuration error and there is no request to send.
    pub fn begin_dispatch(&self, api_key: Option<&str>, sys_prompt: &str, user_prompt: &str, output_format: OutputFormat) -> (r: Result<(Request, RetryState), DispatchError>)
        ensures
            headers_for(key_view(api_key)) is Ok <==> r is Ok,
            match r {
                Ok((req, s)) => {
                    &&& headers_for(key_view(api_key)) == Ok::<Seq<(Seq<char>, Seq<char>)>, ConfigError>(pairs_view(req.headers@))
                    &&& self.is_request_body(sys_prompt@, user_prompt@, output_format, req.body)
                    &&& s == RetryState { retries: 0, delay_ms: self.delay_ms }
                    &&& s.wf(self.retry_policy_spec())
                },
                Err(e) => e matches DispatchError::Config(c) && headers_for(key_view(api_key)) == Err::<Seq<(Seq<char>, Seq<char>)>, ConfigError>(c),
            },
    {
        let headers = match generate_headers(api_key) {
            Ok(h) => h,
            Err(c) => return Err(DispatchError::Config(c)),
        };
        let body = self.generate_request_body(sys_prompt, user_prompt, output_format);
        let policy = self.retry_policy();
        Ok((Request { headers, body }, RetryState::start(&policy)))
    }

    pub open spec fn retry_policy_spec(&self) -> RetryPolicy {
        RetryPolicy { max_retries: self.max_retries, initial_delay_ms: self.delay_ms }
    }
}

/// The generated text of a chat-completion envelope: the string at
/// `choices[0].message.content`.
pub open spec fn content_of(envelope: JsonModel) -> Option<Seq<char>> {
    match model_field(envelope, "choices"@) {
        Some(JsonModel::Array(items)) => if items.len() > 0 {
            match model_field(items[0], "message"@) {
                Some(m) => match model_field(m, "content"@) {
                    Some(JsonModel::Str(s)) => Some(s),
                    _ => None,
                },
                None => None,
            }
        } else {
            None
        },
        _ => None,
    }
}

/// The generated text of an envelope given as text: none unless it is JSON.
pub open spec fn content_of_text(t: Seq<char>) -> Option<Seq<char>> {
    if is_json_text(t) {
        content_of(json_of(t))
    } else {
        None
    }
}

/// The string member `key` of a document given as text: none unless it is JSON.
pub open spec fn string_field_of_text(t: Seq<char>, key: Seq<char>) -> Option<Seq<char>> {
    if is_json_text(t) {
        match model_field(json_of(t), key) {
            Some(JsonModel::Str(s)) => Some(s),
            _ => None,
        }
    } else {
        None
    }
}

/// The member `key` of a level whose document is `m`, read as a level.
fn child_level(l: &JsonLevel, key: &str, Ghost(m): Ghost<JsonModel>) -> (r: Option<JsonLevel>)
    requires
        level_of(*l, m),
    ensures
        match r {
            Some(c) => model_field(m, key@) matches Some(cm) && level_of(c, cm),
            None => model_field(m, key@) is None,
        },
{
    match level_member(l, key, Ghost(m)) {
        Some(t) => read_level(t.as_str()),
        None => None,
    }
}

/// Takes the generated text out of a chat-completion envelope given as text.
pub fn envelope_content(body: &str) -> (r: Result<String, TransportError>)
    ensures
        match r {
            Ok(s) => content_of_text(body@) == Some(s@),
            Err(e) => content_of_text(body@) is None && e is Shape,
        },
{
    proof {
        reveal_strlit("choices");
        reveal_strlit("message");
        reveal_strlit("content");
    }
    let envelope = match read_level(body) {
        Some(l) => l,
        None => return Err(TransportError::Shape),
    };
    let ghost m = json_of(body@);
    let choices = match child_level(&envelope, "choices", Ghost(m)) {
        Some(JsonLevel::Array(items)) => items,
        _ => return Err(TransportError::Shape),
    };
    if choices.len() == 0 {
        return Err(TransportError::Shape);
    }
    let ghost items = model_field(m, "choices"@)->Some_0->Array_0;
    let first = match read_level(choices[0].as_str()) {
        Some(l) => l,
        None => return Err(TransportError::Shape),
    };
    let message = match child_level(&first, "message", Ghost(items[0])) {
        Some(l) => l,
        None => return Err(TransportError::Shape),
    };
    let ghost mm = model_field(items[0], "message"@)->Some_0;
    match child_level(&message, "content", Ghost(mm)) {
        Some(JsonLevel::Str(s)) => Ok(s),
        _ => Err(TransportError::Shape),
    }
}

pub open spec fn is_success(status: u16) -> bool {
    200 <= status <= 299
}

/// Reads a backend's answer to one request: on a success status, the generated
/// text of its envelope; on any other status, that status with the body.
pub fn decode_reply(status: u16, body: String) -> (r: Result<String, TransportError>)
    ensures
        !is_success(status) ==> (r matches Err(TransportError::Http { status: s, body: b }) && s == status && b == body),
        is_success(status) ==> match r {
            Ok(s) => content_of_text(body@) == Some(s@),
            Err(e) => content_of_text(body@) is None && e is Shape,
        },
{
    if status < 200 || status > 299 {
        return Err(TransportError::Http { status, body });
    }
    envelope_content(body.as_str())
}

/// One attempt's answer read as a record of type `T`: on a success status whose
/// envelope holds text, `T`'s reading of that text, a failure to read it being a
/// parse error.
pub fn read_attempt<T: FromLLMResponse>(status: u16, body: String) -> (r: Result<T, AttemptError>)
    ensures
        !is_success(status) ==> (r matches Err(AttemptError::Transport(TransportError::Http { status: s, body: b }))
            && s == status && b == body),
        is_success(status) ==> match content_of_text(body@) {
            None => r matches Err(AttemptError::Transport(TransportError::Shape)),
            Some(c) => match r {
                Ok(v) => T::reads(c, Ok::<T, ParseError>(v)),
                Err(AttemptError::Parse(e)) => T::reads(c, Err::<T, ParseError>(e)),
                Err(AttemptError::Transport(_)) => false,
            },
        },
{
    match decode_reply(status, body) {
        Ok(content) => match T::from_llm_response(content) {
            Ok(v) => Ok(v),
            Err(e) => Err(AttemptError::Parse(e)),
        },
        Err(e) => Err(AttemptError::Transport(e)),
    }
}

/// The body of an answer whose status is a success; any other status, with the
/// body, as an error.
pub fn accept_reply(status: u16, body: String) -> (r: Result<String, TransportError>)
    ensures
        is_success(status) ==> r == Ok::<String, TransportError>(body),
        !is_success(status) ==> r == Err::<String, TransportError>(TransportError::Http { status, body }),
{
    if status < 200 || status > 299 {
        Err(TransportError::Http { status, body })
    } else {
        Ok(body)
    }
}

/// The string member `key` of an answer given as text.
fn string_field(answer: &str, key: &str) -> (r: Result<String, TransportError>)
    ensures
        match r {
            Ok(s) => string_field_of_text(answer@, key@) == Some(s@),
            Err(e) => string_field_of_text(answer@, key@) is None && e is Shape,
        },
{
    let level = match read_level(answer) {
        Some(l) => l,
        None => return Err(TransportError::Shape),
    };
    match child_level(&level, key, Ghost(json_of(answer@))) {
        Some(JsonLevel::Str(s)) => Ok(s),
        _ => Err(TransportError::Shape),
    }
}

/// The id of an uploaded file, from the upload's answer.
pub fn training_file_id(upload: &str) -> (r: Result<String, TransportError>)
    ensures
        match r {
            Ok(s) => string_field_of_text(upload@, "id"@) == Some(s@),
            Err(e) => string_field_of_text(upload@, "id"@) is None && e is Shape,
        },
{
    string_field(upload, "id")
}

/// The status of a fine-tuning job, from the answer that created it.
pub fn job_status(job: &str) -> (r: Result<String, TransportError>)
    ensures
        match r {
            Ok(s) => string_field_of_text(job@, "status"@) == Some(s@),
            Err(e) => string_field_of_text(job@, "status"@) is None && e is Shape,
        },
{
    string_field(job, "status")
}

} // verus!
