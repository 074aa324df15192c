//! The OpenAI adapter: chat completions and embeddings.
//!
//! Every request authenticates with `Authorization: Bearer <key>` and carries
//! a JSON body. Optional settings that are unset are left out of the body
//! rather than sent as `null`. The response lists choices (or embedding data)
//! and the adapter reports the first; an empty list is an error of its own.
//!
//! Numbers that are not integers (a temperature, the values of an
//! embedding) are carried as JSON numerals: the text of the number as JSON
//! writes it.
use vstd::prelude::*;
use vstd::string::*;
use crate::error::{AdapterError, ErrorModel, result_view, and_then_model};
use crate::http::{Method, Request, RequestModel, Response, received, response_text, header, prefixed};
use crate::json::{
    is_json_numeral, json_quoted, json_str_at, json_len_at, json_numbers_at, object_text, array_text, pair_views,
    quote, str_at, len_at, numbers_at, render_object, render_array,
};
use crate::text::{decimal, decimal_text, views};

verus! {

/// The base URL of OpenAI's REST API.
pub const OPENAI_API_BASE: &'static str = "https://api.openai.com/v1";

/// One message of a conversation.
#[derive(Debug, Clone, PartialEq, Eq)]
pub struct ChatMessage {
    pub role: String,
    pub content: String,
}

impl View for ChatMessage {
    type V = (Seq<char>, Seq<char>);

    open spec fn view(&self) -> Self::V {
        (self.role@, self.content@)
    }
}

/// A chat completion request. `id` is the caller's own and is not sent;
/// `temperature`, where set, is a JSON numeral (see `is_numeral`).
#[derive(Debug, Clone, PartialEq, Eq)]
pub struct ChatCompletion {
    pub id: String,
    pub model: String,
    pub messages: Vec<ChatMessage>,
    pub temperature: Option<String>,
    pub max_tokens: Option<u32>,
}

/// The answer to a chat completion: the first choice's content and why it
/// ended.
#[derive(Debug, Clone, PartialEq, Eq)]
pub struct ChatResponse {
    pub id: String,
    pub model: String,
    pub content: String,
    pub finish_reason: String,
}

impl View for ChatResponse {
    type V = (Seq<char>, Seq<char>, Seq<char>, Seq<char>);

    open spec fn view(&self) -> Self::V {
        (self.id@, self.model@, self.content@, self.finish_reason@)
    }
}

/// An embedding request.
#[derive(Debug, Clone, PartialEq, Eq)]
pub struct Embedding {
    pub model: String,
    pub input: String,
}

/// The answer to an embedding request: the first vector, as JSON numerals.
#[derive(Debug, Clone, PartialEq, Eq)]
pub struct EmbeddingResponse {
    pub model: String,
    pub embedding: Vec<String>,
}

impl View for EmbeddingResponse {
    type V = (Seq<char>, Seq<Seq<char>>);

    open spec fn view(&self) -> Self::V {
        (self.model@, views(self.embedding@))
    }
}

/// One choice of a chat completion as OpenAI returns it.
#[derive(Debug, Clone, PartialEq, Eq)]
pub struct OpenAIChoice {
    pub content: String,
    pub finish_reason: String,
}

impl View for OpenAIChoice {
    type V = (Seq<char>, Seq<char>);

    open spec fn view(&self) -> Self::V {
        (self.content@, self.finish_reason@)
    }
}

/// A chat completion as OpenAI returns it.
#[derive(Debug, Clone, PartialEq, Eq)]
pub struct OpenAIChatResponse {
    pub id: String,
    pub model: String,
    pub choices: Vec<OpenAIChoice>,
}

impl View for OpenAIChatResponse {
    type V = (Seq<char>, Seq<char>, Seq<(Seq<char>, Seq<char>)>);

    open spec fn view(&self) -> Self::V {
        (self.id@, self.model@, self.choices@.map_values(|c: OpenAIChoice| c@))
    }
}

/// Embeddings as OpenAI returns them: one vector of numerals per input.
#[derive(Debug, Clone, PartialEq, Eq)]
pub struct OpenAIEmbeddingResponse {
    pub model: String,
    pub data: Vec<Vec<String>>,
}

impl View for OpenAIEmbeddingResponse {
    type V = (Seq<char>, Seq<Seq<Seq<char>>>);

    open spec fn view(&self) -> Self::V {
        (self.model@, self.data@.map_values(|v: Vec<String>| views(v@)))
    }
}

/// The headers of an OpenAI request, which always carries a JSON body.
pub open spec fn openai_headers(key: Seq<char>) -> Seq<(Seq<char>, Seq<char>)> {
    seq![("Authorization"@, "Bearer "@ + key), ("Content-Type"@, "application/json"@)]
}

/// An OpenAI request to the endpoint `path`.
pub open spec fn openai_request(path: Seq<char>, key: Seq<char>, body: Seq<char>) -> RequestModel {
    RequestModel {
        method: Method::Post,
        url: OPENAI_API_BASE@ + path,
        headers: openai_headers(key),
        body: Some(body),
    }
}

fn openai(path: &str, key: &str, body: String) -> (r: Request)
    ensures
        r@ == openai_request(path@, key@, body@),
{
    let mut url = String::from_str(OPENAI_API_BASE);
    url.append(path);
    let mut headers: Vec<(String, String)> = Vec::new();
    headers.push(header("Authorization", prefixed("Bearer ", key)));
    headers.push(header("Content-Type", String::from_str("application/json")));
    let r = Request { method: Method::Post, url, headers, body: Some(body) };
    assert(r@.headers =~= openai_headers(key@));
    r
}

/// The JSON object of one message.
pub open spec fn message_text(m: (Seq<char>, Seq<char>)) -> Seq<char> {
    object_text(seq![("role"@, json_quoted(m.0)), ("content"@, json_quoted(m.1))])
}

/// The members of a chat completion body, in order: the model, the
/// messages, then the temperature and the token limit where they are set.
pub open spec fn chat_entries(
    model: Seq<char>,
    messages: Seq<(Seq<char>, Seq<char>)>,
    temperature: Option<Seq<char>>,
    max_tokens: Option<u32>,
) -> Seq<(Seq<char>, Seq<char>)> {
    let base = seq![
        ("model"@, json_quoted(model)),
        ("messages"@, array_text(messages.map_values(|m: (Seq<char>, Seq<char>)| message_text(m)))),
    ];
    let with_temperature = match temperature {
        Some(t) => base.push(("temperature"@, t)),
        None => base,
    };
    match max_tokens {
        Some(n) => with_temperature.push(("max_tokens"@, decimal(n as nat))),
        None => with_temperature,
    }
}

/// The members of the body of a chat completion request.
pub open spec fn chat_completion_entries(c: ChatCompletion) -> Seq<(Seq<char>, Seq<char>)> {
    chat_entries(
        c.model@,
        c.messages@.map_values(|m: ChatMessage| m@),
        c.temperature.deep_view(),
        c.max_tokens,
    )
}

fn message_object(m: &ChatMessage) -> (r: String)
    ensures
        r@ == message_text(m@),
{
    let mut entries: Vec<(String, String)> = Vec::new();
    entries.push((String::from_str("role"), quote(m.role.as_str())));
    entries.push((String::from_str("content"), quote(m.content.as_str())));
    assert(pair_views(entries@) =~= seq![("role"@, json_quoted(m.role@)), ("content"@, json_quoted(m.content@))]);
    render_object(&entries)
}

/// Asks for the next message of a conversation.
pub fn chat_completion_request(key: &str, completion: &ChatCompletion) -> (r: Request)
    requires
        completion.temperature matches Some(t) ==> is_json_numeral(t@),
    ensures
        r@ == openai_request(
            "/chat/completions"@,
            key@,
            object_text(chat_completion_entries(*completion)),
        ),
{
    let ghost ms = completion.messages@.map_values(|m: ChatMessage| m@);
    let mut objects: Vec<String> = Vec::new();
    let mut i: usize = 0;
    while i < completion.messages.len()
        invariant
            i <= completion.messages.len(),
            ms == completion.messages@.map_values(|m: ChatMessage| m@),
            views(objects@) =~= ms.subrange(0, i as int).map_values(
                |m: (Seq<char>, Seq<char>)| message_text(m),
            ),
        decreases completion.messages.len() - i,
    {
        let o = message_object(&completion.messages[i]);
        let ghost prev = objects@;
        objects.push(o);
        proof {
            let f = |m: (Seq<char>, Seq<char>)| message_text(m);
            assert(ms.subrange(0, i as int + 1) =~= ms.subrange(0, i as int).push(ms[i as int]));
            assert(ms.subrange(0, i as int + 1).map_values(f) =~= ms.subrange(0, i as int).map_values(
                f,
            ).push(f(ms[i as int])));
            assert(objects@ =~= prev.push(o));
            assert(views(objects@) =~= views(prev).push(o@));
        }
        i = i + 1;
    }
    assert(ms.subrange(0, ms.len() as int) =~= ms);
    let mut entries: Vec<(String, String)> = Vec::new();
    entries.push((String::from_str("model"), quote(completion.model.as_str())));
    entries.push((String::from_str("messages"), render_array(&objects)));
    match &completion.temperature {
        Some(t) => {
            entries.push((String::from_str("temperature"), t.clone()));
        },
        None => {},
    }
    match completion.max_tokens {
        Some(n) => {
            entries.push((String::from_str("max_tokens"), decimal_text(n as u64)));
        },
        None => {},
    }
    assert(pair_views(entries@) =~= chat_completion_entries(*completion));
    openai("/chat/completions", key, render_object(&entries))
}

/// The body of an embedding request.
pub open spec fn embedding_body(model: Seq<char>, input: Seq<char>) -> Seq<char> {
    object_text(seq![("model"@, json_quoted(model)), ("input"@, json_quoted(input))])
}

/// Asks for the embedding of a text.
pub fn embedding_request(key: &str, embedding: &Embedding) -> (r: Request)
    ensures
        r@ == openai_request("/embeddings"@, key@, embedding_body(embedding.model@, embedding.input@)),
{
    let mut entries: Vec<(String, String)> = Vec::new();
    entries.push((String::from_str("model"), quote(embedding.model.as_str())));
    entries.push((String::from_str("input"), quote(embedding.input.as_str())));
    assert(pair_views(entries@) =~= seq![
        ("model"@, json_quoted(embedding.model@)),
        ("input"@, json_quoted(embedding.input@)),
    ]);
    openai("/embeddings", key, render_object(&entries))
}

/// The pointer `<array>/<i><field>`, naming a field of the `i`-th element.
pub open spec fn element_pointer(array: Seq<char>, i: int, field: Seq<char>) -> Seq<char> {
    array + "/"@ + decimal(i as nat) + field
}

fn element_pointer_text(array: &str, i: usize, field: &str) -> (r: String)
    ensures
        r@ == element_pointer(array@, i as int, field@),
{
    let mut s = String::from_str(array);
    s.append("/");
    s.append(decimal_text(i as u64).as_str());
    s.append(field);
    s
}

/// The fields of the `i`-th choice of a chat completion text.
pub open spec fn choice_fields(t: Seq<char>, i: int) -> Option<(Seq<char>, Seq<char>)> {
    match (
        json_str_at(t, element_pointer("/choices"@, i, "/message/content"@)),
        json_str_at(t, element_pointer("/choices"@, i, "/finish_reason"@)),
    ) {
        (Some(content), Some(finish_reason)) => Some((content, finish_reason)),
        _ => None,
    }
}

/// The fields of a chat completion text, every choice included, if each has
/// its type.
pub open spec fn chat_fields(t: Seq<char>) -> Option<
    (Seq<char>, Seq<char>, Seq<(Seq<char>, Seq<char>)>),
> {
    match (json_str_at(t, "/id"@), json_str_at(t, "/model"@), json_len_at(t, "/choices"@)) {
        (Some(id), Some(model), Some(n)) => if forall|i: int|
            0 <= i < n ==> #[trigger] choice_fields(t, i) is Some {
            Some((id, model, Seq::new(n as nat, |i: int| choice_fields(t, i)->Some_0)))
        } else {
            None
        },
        _ => None,
    }
}

/// The numerals of the `i`-th embedding of an embedding text.
pub open spec fn embedding_at(t: Seq<char>, i: int) -> Option<Seq<Seq<char>>> {
    json_numbers_at(t, element_pointer("/data"@, i, "/embedding"@))
}

/// The fields of an embedding text, every vector included, if each has its
/// type.
pub open spec fn embedding_fields(t: Seq<char>) -> Option<(Seq<char>, Seq<Seq<Seq<char>>>)> {
    match (json_str_at(t, "/model"@), json_len_at(t, "/data"@)) {
        (Some(model), Some(n)) => if forall|i: int| 0 <= i < n ==> #[trigger] embedding_at(t, i) is Some {
            Some((model, Seq::new(n as nat, |i: int| embedding_at(t, i)->Some_0)))
        } else {
            None
        },
        _ => None,
    }
}

/// What a chat completion text gives: the first choice, or why there is none.
pub open spec fn chat_outcome(t: Seq<char>) -> Result<(Seq<char>, Seq<char>, Seq<char>, Seq<char>), ErrorModel> {
    match chat_fields(t) {
        None => Err(ErrorModel::MalformedResponse(t)),
        Some((id, model, choices)) => if choices.len() == 0 {
            Err(ErrorModel::EmptyResponseArray)
        } else {
            Ok((id, model, choices[0].0, choices[0].1))
        },
    }
}

/// What an embedding text gives: the first vector, or why there is none.
pub open spec fn embedding_outcome(t: Seq<char>) -> Result<(Seq<char>, Seq<Seq<char>>), ErrorModel> {
    match embedding_fields(t) {
        None => Err(ErrorModel::MalformedResponse(t)),
        Some((model, data)) => if data.len() == 0 {
            Err(ErrorModel::EmptyResponseArray)
        } else {
            Ok((model, data[0]))
        },
    }
}

fn malformed(text: &str) -> (e: AdapterError)
    ensures
        e@ == ErrorModel::MalformedResponse(text@),
{
    AdapterError::MalformedResponse(String::from_str(text))
}

/// Decodes a chat completion from a response text, every choice included.
pub fn decode_chat(text: &str) -> (r: Result<OpenAIChatResponse, AdapterError>)
    ensures
        match r {
            Ok(w) => chat_fields(text@) == Some(w@),
            Err(e) => chat_fields(text@) is None && e@ == ErrorModel::MalformedResponse(text@),
        },
{
    let id = match str_at(text, "/id") {
        Some(id) => id,
        None => return Err(malformed(text)),
    };
    let model = match str_at(text, "/model") {
        Some(model) => model,
        None => return Err(malformed(text)),
    };
    let n = match len_at(text, "/choices") {
        Some(n) => n,
        None => return Err(malformed(text)),
    };
    let mut choices: Vec<OpenAIChoice> = Vec::new();
    let mut i: usize = 0;
    while i < n
        invariant
            i <= n,
            choices@.len() == i,
            json_str_at(text@, "/id"@) == Some(id@),
            json_str_at(text@, "/model"@) == Some(model@),
            json_len_at(text@, "/choices"@) == Some(n),
            forall|j: int| 0 <= j < i ==> #[trigger] choice_fields(text@, j) == Some(choices@[j]@),
        decreases n - i,
    {
        let content = str_at(text, element_pointer_text("/choices", i, "/message/content").as_str());
        let finish_reason = str_at(text, element_pointer_text("/choices", i, "/finish_reason").as_str());
        match (content, finish_reason) {
            (Some(content), Some(finish_reason)) => {
                choices.push(OpenAIChoice { content, finish_reason });
            },
            _ => {
                assert(choice_fields(text@, i as int) is None);
                assert(!(forall|k: int| 0 <= k < n ==> #[trigger] choice_fields(text@, k) is Some));
                return Err(malformed(text));
            },
        }
        i = i + 1;
    }
    let w = OpenAIChatResponse { id, model, choices };
    assert(w@.2 =~= Seq::new(n as nat, |i: int| choice_fields(text@, i)->Some_0));
    Ok(w)
}

/// Decodes embeddings from a response text, every vector included.
pub fn decode_embeddings(text: &str) -> (r: Result<OpenAIEmbeddingResponse, AdapterError>)
    ensures
        match r {
            Ok(w) => embedding_fields(text@) == Some(w@),
            Err(e) => embedding_fields(text@) is None && e@ == ErrorModel::MalformedResponse(text@),
        },
{
    let model = match str_at(text, "/model") {
        Some(model) => model,
        None => return Err(malformed(text)),
    };
    let n = match len_at(text, "/data") {
        Some(n) => n,
        None => return Err(malformed(text)),
    };
    let mut data: Vec<Vec<String>> = Vec::new();
    let mut i: usize = 0;
    while i < n
        invariant
            i <= n,
            data@.len() == i,
            json_str_at(text@, "/model"@) == Some(model@),
            json_len_at(text@, "/data"@) == Some(n),
            forall|j: int| 0 <= j < i ==> #[trigger] embedding_at(text@, j) == Some(views(data@[j]@)),
        decreases n - i,
    {
        match numbers_at(text, element_pointer_text("/data", i, "/embedding").as_str()) {
            Some(v) => {
                data.push(v);
            },
            None => {
                assert(embedding_at(text@, i as int) is None);
                assert(!(forall|k: int| 0 <= k < n ==> #[trigger] embedding_at(text@, k) is Some));
                return Err(malformed(text));
            },
        }
        i = i + 1;
    }
    let w = OpenAIEmbeddingResponse { model, data };
    assert(w@.1 =~= Seq::new(n as nat, |i: int| embedding_at(text@, i)->Some_0));
    Ok(w)
}

/// The chat answer that the adapter reports for a decoded completion: the
/// first choice, or `EmptyResponseArray` when there is none.
pub fn chat_response_from(w: OpenAIChatResponse) -> (r: Result<ChatResponse, AdapterError>)
    ensures
        match r {
            Ok(c) => w.choices.len() > 0 && c@ == (w.id@, w.model@, w.choices@[0].content@, w.choices@[0].finish_reason@),
            Err(e) => w.choices.len() == 0 && e@ == ErrorModel::EmptyResponseArray,
        },
{
    if w.choices.len() == 0 {
        return Err(AdapterError::EmptyResponseArray);
    }
    let mut choices = w.choices;
    let first = choices.swap_remove(0);
    Ok(ChatResponse {
        id: w.id,
        model: w.model,
        content: first.content,
        finish_reason: first.finish_reason,
    })
}

/// The embedding that the adapter reports for decoded embeddings: the first
/// vector, or `EmptyResponseArray` when there is none.
pub fn embedding_response_from(w: OpenAIEmbeddingResponse) -> (r: Result<EmbeddingResponse, AdapterError>)
    ensures
        match r {
            Ok(e) => w.data.len() > 0 && e@ == (w.model@, views(w.data@[0]@)),
            Err(e) => w.data.len() == 0 && e@ == ErrorModel::EmptyResponseArray,
        },
{
    let mut data = w.data;
    if data.len() == 0 {
        return Err(AdapterError::EmptyResponseArray);
    }
    let first = data.swap_remove(0);
    Ok(EmbeddingResponse { model: w.model, embedding: first })
}

/// Reads the response of `chat_completion_request`.
pub fn read_chat_completion(outcome: Result<Response, String>) -> (r: Result<ChatResponse, AdapterError>)
    ensures
        result_view(r) == and_then_model(received(outcome), |t: Seq<char>| chat_outcome(t)),
{
    let text = response_text(outcome)?;
    let wire = decode_chat(text.as_str())?;
    chat_response_from(wire)
}

/// Reads the response of `embedding_request`.
pub fn read_embedding(outcome: Result<Response, String>) -> (r: Result<EmbeddingResponse, AdapterError>)
    ensures
        result_view(r) == and_then_model(received(outcome), |t: Seq<char>| embedding_outcome(t)),
{
    let text = response_text(outcome)?;
    let wire = decode_embeddings(text.as_str())?;
    embedding_response_from(wire)
}

/// Every OpenAI request carries exactly one `Authorization` header, first,
/// with the value `Bearer <key>`.
pub proof fn openai_authorization(path: Seq<char>, key: Seq<char>, body: Seq<char>)
    ensures
        openai_request(path, key, body).headers[0] == ("Authorization"@, "Bearer "@ + key),
        forall|i: int|
            1 <= i < openai_request(path, key, body).headers.len() ==> (#[trigger] openai_request(
                path,
                key,
                body,
            ).headers[i]).0 != "Authorization"@,
{
    reveal_strlit("Authorization");
    reveal_strlit("Content-Type");
    let h = openai_request(path, key, body).headers;
    assert forall|i: int| 1 <= i < h.len() implies (#[trigger] h[i]).0 != "Authorization"@ by {
        assert(h[i].0.len() != "Authorization"@.len());
    }
}

/// A chat completion with no temperature and no token limit sends a body
/// with only the model and the messages: neither optional key is present.
pub proof fn unset_options_are_omitted(c: ChatCompletion)
    requires
        c.temperature is None,
        c.max_tokens is None,
    ensures
        chat_completion_entries(c).len() == 2,
        chat_completion_entries(c)[0].0 == "model"@,
        chat_completion_entries(c)[1].0 == "messages"@,
        forall|i: int|
            0 <= i < chat_completion_entries(c).len() ==> (#[trigger] chat_completion_entries(c)[i]).0
                != "temperature"@ && chat_completion_entries(c)[i].0 != "max_tokens"@,
{
    reveal_strlit("model");
    reveal_strlit("messages");
    reveal_strlit("temperature");
    reveal_strlit("max_tokens");
    let e = chat_completion_entries(c);
    assert forall|i: int| 0 <= i < e.len() implies (#[trigger] e[i]).0 != "temperature"@ && e[i].0
        != "max_tokens"@ by {
        assert(e[i].0.len() != "temperature"@.len());
        assert(e[i].0.len() != "max_tokens"@.len());
    }
}

/// A chat completion whose choices list is empty fails with
/// `EmptyResponseArray`, not with a made-up answer.
pub proof fn empty_choices_fail(t: Seq<char>)
    requires
        json_str_at(t, "/id"@) is Some,
        json_str_at(t, "/model"@) is Some,
        json_len_at(t, "/choices"@) == Some(0usize),
    ensures
        chat_outcome(t) == Err::<(Seq<char>, Seq<char>, Seq<char>, Seq<char>), _>(
            ErrorModel::EmptyResponseArray,
        ),
{
}

/// Embeddings whose data list is empty fail with `EmptyResponseArray`.
pub proof fn empty_data_fail(t: Seq<char>)
    requires
        json_str_at(t, "/model"@) is Some,
        json_len_at(t, "/data"@) == Some(0usize),
    ensures
        embedding_outcome(t) == Err::<(Seq<char>, Seq<Seq<char>>), _>(ErrorModel::EmptyResponseArray),
{
}

/// When the response text is a well-formed chat completion with at least one
/// choice, the answer's fields are exactly the text's `id`, `model`, and the
/// first choice's `message.content` and `finish_reason`.
pub proof fn chat_answer_copies_fields(o: Result<Response, String>, t: Seq<char>)
    requires
        received(o) == Ok::<_, ErrorModel>(t),
        chat_fields(t) is Some,
        json_len_at(t, "/choices"@) != Some(0usize),
    ensures
        and_then_model(received(o), |t: Seq<char>| chat_outcome(t)) == Ok::<_, ErrorModel>(
            (
                json_str_at(t, "/id"@)->Some_0,
                json_str_at(t, "/model"@)->Some_0,
                json_str_at(t, element_pointer("/choices"@, 0, "/message/content"@))->Some_0,
                json_str_at(t, element_pointer("/choices"@, 0, "/finish_reason"@))->Some_0,
            ),
        ),
{
    assert(choice_fields(t, 0) is Some);
}

} // verus!
